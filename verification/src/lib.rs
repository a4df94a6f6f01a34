//! The core of an unattended, restartable loop that runs a code-writing
//! agent on a working directory, validates what it did, and decides when to
//! stop.
//!
//! The library takes no action in the world. It never reads a file, starts a
//! process, looks at the clock or sleeps: it says what is to be done, is
//! told what came of it, and decides. What it decides is stated in contracts
//! and proved.
//!
//! - [`runner`] is the loop, as a machine of turns.
//! - [`progress`] is the progress store: an append-only text whose records
//!   are counted, never numbered by a stored counter.
//! - [`validation`] runs the validation command and the quality gates;
//!   [`git`] commits; both ask for commands and read their outcomes.
//! - [`config`] holds the settings, [`cli`] the overrides of the command line.
//! - [`templates`] renders the prompt; [`report`], [`status`] and [`setup`]
//!   make up what the operator is shown.
//! - [`text`] says what it means to find, count, replace, split and trim
//!   text, and [`process`] what a command and its outcome are.
//! - [`laws`] states what holds of all of this together.

pub mod cli;
pub mod config;
pub mod git;
pub mod laws;
pub mod process;
pub mod progress;
pub mod report;
pub mod runner;
pub mod setup;
pub mod status;
pub mod templates;
pub mod text;
pub mod validation;
