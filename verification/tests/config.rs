use rwl::cli::RunArgs;
use rwl::config::{Config, ConfigError, ConfigFile, QualityGate};

#[test]
fn test_default_config() {
    let config = Config::default();
    assert_eq!(config.loop_config.max_iterations, 100);
    assert_eq!(config.loop_config.iteration_timeout_minutes, 10);
    assert_eq!(config.loop_config.sleep_between_secs, 2);
    assert_eq!(config.loop_config.completion_signal, "<promise>COMPLETE</promise>");
    assert_eq!(config.validation.command, "otto ci");
    assert_eq!(config.llm.model, "opus");
    assert!(config.llm.dangerously_skip_permissions);
    assert!(config.git.auto_commit);
}

#[test]
fn test_quality_gate_command() {
    let gate = QualityGate {
        name: "test".to_string(),
        command: Some("echo hello".to_string()),
        script: None,
    };
    assert_eq!(gate.get_command().unwrap(), "echo hello");
}

#[test]
fn test_quality_gate_script() {
    let gate = QualityGate {
        name: "test".to_string(),
        command: None,
        script: Some("./scripts/test.sh".to_string()),
    };
    assert_eq!(gate.get_command().unwrap(), "bash ./scripts/test.sh");
}

#[test]
fn test_quality_gate_both_error() {
    let gate = QualityGate {
        name: "test".to_string(),
        command: Some("echo hello".to_string()),
        script: Some("./scripts/test.sh".to_string()),
    };
    assert!(gate.get_command().is_err());
}

#[test]
fn test_quality_gate_neither_error() {
    let gate = QualityGate { name: "test".to_string(), command: None, script: None };
    assert!(gate.get_command().is_err());
}

#[test]
fn default_gates_are_the_two_greps() {
    let config = Config::default();
    assert_eq!(config.quality_gates.len(), 2);
    assert_eq!(config.quality_gates[0].name, "no_dead_code");
    assert_eq!(
        config.quality_gates[0].get_command().unwrap(),
        "! grep -rn 'allow(dead_code)' src/"
    );
    assert_eq!(config.quality_gates[1].name, "no_todos");
    assert_eq!(config.git.commit_message_template, "rwl: iteration {iteration}");
}

#[test]
fn gate_errors_name_the_gate() {
    let both = QualityGate {
        name: "lint".to_string(),
        command: Some("a".to_string()),
        script: Some("b".to_string()),
    };
    match both.get_command() {
        Err(e) => {
            assert!(matches!(e, rwl::config::GateError::Both { .. }));
            assert_eq!(e.message(), "Gate 'lint' has both command and script");
        }
        Ok(_) => panic!("resolved"),
    }
    let neither = QualityGate { name: "lint".to_string(), command: None, script: None };
    match neither.get_command() {
        Err(e) => {
            assert!(matches!(e, rwl::config::GateError::Neither { .. }));
            assert_eq!(e.message(), "Gate 'lint' has neither command nor script");
        }
        Ok(_) => panic!("resolved"),
    }
}

#[test]
fn gate_command_is_kept_unchanged() {
    let gate = QualityGate {
        name: "g".to_string(),
        command: Some("  echo 'a  b' && x ".to_string()),
        script: None,
    };
    assert_eq!(gate.get_command().unwrap(), "  echo 'a  b' && x ");
}

#[test]
fn local_paths_lie_below_the_work_dir() {
    assert_eq!(Config::local_config_dir("."), "./.rwl");
    assert_eq!(Config::local_config_path("."), "./.rwl/rwl.yml");
    assert_eq!(Config::local_config_dir("/tmp/project"), "/tmp/project/.rwl");
    assert_eq!(Config::local_config_dir("/tmp/project/"), "/tmp/project/.rwl");
    assert_eq!(Config::local_config_dir(""), ".rwl");
}

#[test]
fn global_paths_need_a_config_home() {
    assert_eq!(Config::global_config_dir(None), None);
    assert_eq!(Config::global_config_path(None), None);
    assert_eq!(
        Config::global_config_dir(Some("/home/u/.config")),
        Some("/home/u/.config/rwl".to_string())
    );
    assert_eq!(
        Config::global_config_path(Some("/home/u/.config")),
        Some("/home/u/.config/rwl/rwl.yml".to_string())
    );
}

#[test]
fn join_follows_the_path_rules() {
    assert_eq!(rwl::config::join("a", "b"), "a/b");
    assert_eq!(rwl::config::join("a/", "b"), "a/b");
    assert_eq!(rwl::config::join("", "b"), "b");
    assert_eq!(rwl::config::join("a", "/b"), "/b");
    assert_eq!(
        std::path::Path::new("a").join("b").to_string_lossy(),
        rwl::config::join("a", "b")
    );
    assert_eq!(
        std::path::Path::new("a/").join(".rwl").to_string_lossy(),
        rwl::config::join("a/", ".rwl")
    );
    assert_eq!(
        std::path::Path::new("a").join("/b").to_string_lossy(),
        rwl::config::join("a", "/b")
    );
}

fn sample(model: &str) -> Config {
    let mut c = Config::default();
    c.llm.model = model.to_string();
    c
}

#[test]
fn explicit_file_is_taken_alone() {
    let c = Config::load(
        Some(ConfigFile::Parsed(sample("explicit"))),
        ConfigFile::Parsed(sample("local")),
        ConfigFile::Parsed(sample("global")),
    )
    .unwrap();
    assert_eq!(c.llm.model, "explicit");
    let missing = Config::load(
        Some(ConfigFile::Missing),
        ConfigFile::Parsed(sample("local")),
        ConfigFile::Parsed(sample("global")),
    );
    assert!(matches!(missing, Err(ConfigError::Missing)));
    let invalid = Config::load(
        Some(ConfigFile::Invalid { reason: "bad yaml".to_string() }),
        ConfigFile::Parsed(sample("local")),
        ConfigFile::Missing,
    );
    match invalid {
        Err(ConfigError::Invalid { reason }) => assert_eq!(reason, "bad yaml"),
        _ => panic!("loaded"),
    }
}

#[test]
fn cascade_goes_local_global_defaults() {
    let c = Config::load(None, ConfigFile::Parsed(sample("local")), ConfigFile::Parsed(sample("global")))
        .unwrap();
    assert_eq!(c.llm.model, "local");
    let c = Config::load(None, ConfigFile::Missing, ConfigFile::Parsed(sample("global"))).unwrap();
    assert_eq!(c.llm.model, "global");
    let c = Config::load(
        None,
        ConfigFile::Invalid { reason: "x".to_string() },
        ConfigFile::Parsed(sample("global")),
    )
    .unwrap();
    assert_eq!(c.llm.model, "global");
    let c = Config::load(None, ConfigFile::Missing, ConfigFile::Invalid { reason: "x".to_string() })
        .unwrap();
    assert_eq!(c.llm.model, "opus");
    let c = Config::load(None, ConfigFile::Missing, ConfigFile::Missing).unwrap();
    assert_eq!(c.loop_config.max_iterations, 100);
}

#[test]
fn global_and_local_loads() {
    assert_eq!(Config::load_global(ConfigFile::Missing).unwrap().llm.model, "opus");
    assert_eq!(Config::load_global(ConfigFile::Parsed(sample("g"))).unwrap().llm.model, "g");
    assert!(matches!(
        Config::load_global(ConfigFile::Invalid { reason: "r".to_string() }),
        Err(ConfigError::Invalid { .. })
    ));
    assert!(matches!(Config::load_local(ConfigFile::Missing), Err(ConfigError::Missing)));
    assert_eq!(Config::load_local(ConfigFile::Parsed(sample("l"))).unwrap().llm.model, "l");
    assert_eq!(ConfigError::Missing.message(), "Failed to read config file");
}

#[test]
fn command_line_overrides_the_configuration() {
    let args = RunArgs {
        plan: "plan.md".to_string(),
        max_iterations: Some(7),
        model: Some("sonnet".to_string()),
        timeout: None,
    };
    let c = args.apply(Config::default());
    assert_eq!(c.loop_config.max_iterations, 7);
    assert_eq!(c.llm.model, "sonnet");
    assert_eq!(c.loop_config.iteration_timeout_minutes, 10);
    assert_eq!(c.loop_config.sleep_between_secs, 2);
    assert_eq!(c.quality_gates.len(), 2);
    let none = RunArgs { plan: "p".to_string(), max_iterations: None, model: None, timeout: Some(3) };
    let c = none.apply(Config::default());
    assert_eq!(c.loop_config.max_iterations, 100);
    assert_eq!(c.llm.model, "opus");
    assert_eq!(c.loop_config.iteration_timeout_minutes, 3);
}

#[test]
fn clones_keep_every_field() {
    let mut c = Config::default();
    c.quality_gates.push(QualityGate {
        name: "s".to_string(),
        command: None,
        script: Some("x.sh".to_string()),
    });
    let d = c.clone();
    assert_eq!(d.quality_gates.len(), 3);
    assert_eq!(d.quality_gates[2].script, Some("x.sh".to_string()));
    assert_eq!(d.quality_gates[2].command, None);
    assert_eq!(d.loop_config.completion_signal, c.loop_config.completion_signal);
    assert_eq!(d.git.commit_message_template, c.git.commit_message_template);
    assert_eq!(d.validation.command, c.validation.command);
}
