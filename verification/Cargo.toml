[package]
name = "rwl"
version = "0.1.0"
edition = "2021"
publish = false

[dependencies]
chrono = "0.4"
clap = { version = "4", features = ["derive"] }
colored = "*"
dirs = "*"
env_logger = "*"
eyre = "0.6"
handlebars = "*"
indicatif = "*"
log = "0.4"
serde = { version = "1", features = ["derive"] }
serde_yaml = "0.9"
which = "*"
