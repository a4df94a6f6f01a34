use rwl::config::{Config, ConfigFile, QualityGate};
use rwl::process::{CommandOutput, CommandSpec, Execution};
use rwl::progress::{count_records, ProgressTracker, Timestamp};
use rwl::runner::{
    agent, render_commit_message, summarize, Action, Event, LoopOutcome, LoopRunner, LoopState,
    Notice, Phase, RunError, StoreRead, Turn,
};
use rwl::templates::{build_prompt, PromptError};

const AGENT: &str = "agent-cli";
const SIGNAL: &str = "<promise>COMPLETE</promise>";

/// A stand-in for everything outside the machine.
struct World {
    config: ConfigFile,
    reloads: Vec<ConfigFile>,
    store: Option<String>,
    store_unreadable: bool,
    agent_found: bool,
    agent_starts: bool,
    agent_output: String,
    agent_exit: i32,
    agent_stderr: String,
    in_repository: bool,
    changes: String,
    status_exit: i32,
    commit_exit: i32,
    git_starts: bool,
    validation_starts: bool,
    validation_exit: i32,
    append_fails: bool,
    clock: Timestamp,
    executed: Vec<CommandSpec>,
    slept: Vec<u64>,
    appended: Vec<String>,
    notices: Vec<Notice>,
}

fn config(max_iterations: u32) -> Config {
    let mut c = Config::default();
    c.loop_config.max_iterations = max_iterations;
    c.validation.command = "validate".to_string();
    c.git.auto_commit = false;
    c.quality_gates = vec![];
    c
}

fn world(c: Config) -> World {
    World {
        config: ConfigFile::Parsed(c),
        reloads: vec![],
        store: None,
        store_unreadable: false,
        agent_found: true,
        agent_starts: true,
        agent_output: "working on it".to_string(),
        agent_exit: 0,
        agent_stderr: String::new(),
        in_repository: true,
        changes: String::new(),
        status_exit: 0,
        commit_exit: 0,
        git_starts: true,
        validation_starts: true,
        validation_exit: 0,
        append_fails: false,
        clock: Timestamp { secs: 1715000000, nanos: 0 },
        executed: vec![],
        slept: vec![],
        appended: vec![],
        notices: vec![],
    }
}

fn copy(file: &ConfigFile) -> ConfigFile {
    match file {
        ConfigFile::Missing => ConfigFile::Missing,
        ConfigFile::Invalid { reason } => ConfigFile::Invalid { reason: reason.clone() },
        ConfigFile::Parsed(c) => ConfigFile::Parsed(c.clone()),
    }
}

fn exited(code: i32, stdout: &str, stderr: &str) -> Execution {
    Execution::Finished(CommandOutput {
        code: Some(code),
        stdout: stdout.to_string(),
        stderr: stderr.to_string(),
    })
}

impl World {
    fn execute(&mut self, spec: CommandSpec) -> Execution {
        let outcome = if spec.program == AGENT {
            if self.agent_starts {
                exited(self.agent_exit, &self.agent_output, &self.agent_stderr)
            } else {
                Execution::NotStarted { reason: "permission denied".to_string() }
            }
        } else if spec.program == "git" {
            match spec.args[0].as_str() {
                "rev-parse" => exited(if self.in_repository { 0 } else { 128 }, "", ""),
                _ if !self.git_starts => Execution::NotStarted { reason: "no git".to_string() },
                "status" => exited(self.status_exit, &self.changes, "status broke"),
                "add" => exited(0, "", ""),
                "commit" => {
                    self.changes = String::new();
                    exited(self.commit_exit, "", "hook said no")
                }
                other => panic!("unexpected git {}", other),
            }
        } else {
            assert_eq!(spec.program, "sh");
            assert_eq!(spec.args[0], "-c");
            match spec.args[1].as_str() {
                "validate" if !self.validation_starts => {
                    Execution::NotStarted { reason: "no shell".to_string() }
                }
                "validate" => exited(self.validation_exit, "checked", ""),
                "true" => exited(0, "", ""),
                "false" => exited(1, "", "gate said no"),
                other => panic!("unexpected command {}", other),
            }
        };
        self.executed.push(spec);
        outcome
    }

    fn perform(&mut self, action: Action) -> Result<Event, Result<LoopOutcome, RunError>> {
        Ok(match action {
            Action::LoadConfig { path } => {
                assert_eq!(path, "/work/.rwl/rwl.yml");
                if self.reloads.is_empty() {
                    Event::Config(copy(&self.config))
                } else {
                    Event::Config(self.reloads.remove(0))
                }
            }
            Action::ReadProgress { path } => {
                assert_eq!(path, "/work/.rwl/progress.txt");
                if self.store_unreadable {
                    Event::Store(StoreRead::Unreadable { reason: "is a directory".to_string() })
                } else {
                    match &self.store {
                        Some(text) => Event::Store(StoreRead::Text(text.clone())),
                        None => Event::Store(StoreRead::Absent),
                    }
                }
            }
            Action::Locate { program } => {
                assert_eq!(program, AGENT);
                Event::Located(self.agent_found)
            }
            Action::Execute(spec) => Event::Executed(self.execute(spec)),
            Action::ReadClock => Event::Clock(self.clock),
            Action::Append { path, text } => {
                assert_eq!(path, "/work/.rwl/progress.txt");
                if self.append_fails {
                    Event::Written { error: Some("disk full".to_string()) }
                } else {
                    let mut all = self.store.take().unwrap_or_default();
                    all.push_str(&text);
                    self.store = Some(all);
                    self.appended.push(text);
                    Event::Written { error: None }
                }
            }
            Action::Sleep { secs } => {
                self.slept.push(secs);
                Event::Slept
            }
            Action::Finish(outcome) => return Err(Ok(outcome)),
            Action::Fail(error) => return Err(Err(error)),
        })
    }

    fn run(&mut self) -> Result<LoopOutcome, RunError> {
        let runner = LoopRunner::new("/work", "plan.md", AGENT);
        let mut state = runner.start();
        let mut event = Event::Start;
        for _ in 0..10_000 {
            let (next, Turn { notices, action }) = runner.run(state, event);
            state = next;
            self.notices.extend(notices);
            match self.perform(action) {
                Ok(e) => event = e,
                Err(end) => {
                    assert!(state.is_finished());
                    return end;
                }
            }
        }
        panic!("the run does not end");
    }

    fn programs(&self) -> Vec<String> {
        self.executed
            .iter()
            .map(|c| {
                if c.program == "git" {
                    format!("git {}", c.args[0])
                } else if c.program == "sh" {
                    c.args[1].clone()
                } else {
                    c.program.clone()
                }
            })
            .collect()
    }
}

fn gate(name: &str, command: &str) -> QualityGate {
    QualityGate { name: name.to_string(), command: Some(command.to_string()), script: None }
}

#[test]
fn an_empty_store_and_no_signal_run_to_the_limit() {
    let mut w = world(config(3));
    match w.run() {
        Ok(LoopOutcome::MaxIterations { iterations }) => assert_eq!(iterations, 3),
        other => panic!("unexpected: {:?}", other),
    }
    let store = w.store.clone().unwrap();
    assert_eq!(count_records(&store), 3);
    assert_eq!(ProgressTracker::open("p", Some(store.clone())).iteration_count(), 3);
    assert_eq!(w.appended.len(), 3);
    assert!(w.appended[0].starts_with("## Iteration 1\nTimestamp: 2024-05-06 12:53:20 UTC\n"));
    assert!(w.appended[1].starts_with("## Iteration 2\n"));
    assert!(w.appended[2].starts_with("## Iteration 3\n"));
    assert!(store.contains("Validation: PASSED\nPromise: NOT FOUND\nSummary: Validation passed, waiting for completion\n\n"));
    assert_eq!(w.slept, vec![2, 2]);
    assert_eq!(
        w.programs(),
        vec![AGENT, "validate", AGENT, "validate", AGENT, "validate"]
    );
}

#[test]
fn signal_validation_and_gates_complete_the_first_iteration() {
    let mut c = config(5);
    c.quality_gates = vec![gate("a", "true"), gate("b", "true")];
    let mut w = world(c);
    w.agent_output = format!("all done {}\n", SIGNAL);
    match w.run() {
        Ok(LoopOutcome::Complete { iterations }) => assert_eq!(iterations, 1),
        other => panic!("unexpected: {:?}", other),
    }
    assert_eq!(w.programs(), vec![AGENT, "validate", "true", "true"]);
    assert_eq!(count_records(&w.store.clone().unwrap()), 1);
    assert!(w.store.unwrap().contains("Validation: PASSED\nPromise: FOUND\nSummary: Complete\n"));
    assert!(w.slept.is_empty());
}

#[test]
fn an_agent_that_cannot_be_found_ends_the_run() {
    let mut w = world(config(3));
    w.agent_found = false;
    match w.run() {
        Ok(LoopOutcome::Error { iterations, error }) => {
            assert_eq!(iterations, 0);
            assert_eq!(error, "agent-cli CLI not found. Please install it.");
        }
        other => panic!("unexpected: {:?}", other),
    }
    assert_eq!(w.store, None);
    assert!(w.appended.is_empty());
    assert!(w.executed.is_empty());
}

#[test]
fn an_agent_that_cannot_be_started_ends_the_run() {
    let mut w = world(config(3));
    w.agent_starts = false;
    w.store = Some("# RWL Progress Log\n\n## Iteration 1\n\n## Iteration 2\n\n".to_string());
    let mut c = config(9);
    c.loop_config.max_iterations = 9;
    w.config = ConfigFile::Parsed(c);
    match w.run() {
        Ok(LoopOutcome::Error { iterations, error }) => {
            assert_eq!(iterations, 2);
            assert_eq!(error, "Failed to execute agent-cli command");
        }
        other => panic!("unexpected: {:?}", other),
    }
    assert!(w.appended.is_empty());
    assert_eq!(count_records(&w.store.unwrap()), 2);
}

#[test]
fn nothing_to_commit_means_no_commit() {
    let mut c = config(2);
    c.git.auto_commit = true;
    let mut w = world(c);
    w.changes = String::new();
    match w.run() {
        Ok(LoopOutcome::MaxIterations { iterations }) => assert_eq!(iterations, 2),
        other => panic!("unexpected: {:?}", other),
    }
    assert_eq!(
        w.programs(),
        vec![
            AGENT, "git rev-parse", "git status", "validate",
            AGENT, "git rev-parse", "git status", "validate",
        ]
    );
    assert!(!w.notices.iter().any(|n| matches!(n, Notice::Committed { .. })));
}

#[test]
fn changes_are_committed_with_the_number_of_the_iteration() {
    let mut c = config(1);
    c.git.auto_commit = true;
    c.git.commit_message_template = "loop {iteration} of {iteration}".to_string();
    let mut w = world(c);
    w.store = None;
    w.changes = " M src/lib.rs\n".to_string();
    w.run().unwrap();
    assert_eq!(
        w.programs(),
        vec![AGENT, "git rev-parse", "git status", "git add", "git commit", "validate"]
    );
    let commit = &w.executed[4];
    assert_eq!(commit.args, vec!["commit", "-m", "loop 1 of 1"]);
    assert_eq!(commit.dir, "/work");
    assert!(w
        .notices
        .iter()
        .any(|n| matches!(n, Notice::Committed { message } if message == "loop 1 of 1")));
}

#[test]
fn outside_a_repository_nothing_is_committed() {
    let mut c = config(1);
    c.git.auto_commit = true;
    let mut w = world(c);
    w.in_repository = false;
    w.changes = "?? x\n".to_string();
    w.run().unwrap();
    assert_eq!(w.programs(), vec![AGENT, "git rev-parse", "validate"]);
}

#[test]
fn a_run_takes_up_after_the_last_record() {
    let mut w = world(config(5));
    w.store = Some("# RWL Progress Log\n\n## Iteration 1\n\n## Iteration 2\n\n".to_string());
    match w.run() {
        Ok(LoopOutcome::MaxIterations { iterations }) => assert_eq!(iterations, 5),
        other => panic!("unexpected: {:?}", other),
    }
    assert_eq!(w.appended.len(), 3);
    assert!(w.appended[0].starts_with("## Iteration 3\n"));
    assert!(w.appended[1].starts_with("## Iteration 4\n"));
    assert!(w.appended[2].starts_with("## Iteration 5\n"));
    assert_eq!(count_records(&w.store.clone().unwrap()), 5);
    assert!(matches!(w.notices[0], Notice::Resumed { completed: 2, limit: 5 }));

    let mut again = world(config(7));
    again.store = w.store.clone();
    again.run().unwrap();
    assert!(again.appended[0].starts_with("## Iteration 6\n"));
    assert_eq!(again.appended.len(), 2);
    let store = again.store.unwrap();
    for n in 1..=7 {
        assert_eq!(store.matches(&format!("## Iteration {}\n", n)).count(), 1);
    }
}

#[test]
fn a_full_store_leaves_nothing_to_do() {
    let mut w = world(config(2));
    w.store = Some("## Iteration 1\n## Iteration 2\n## Iteration 3\n".to_string());
    match w.run() {
        Ok(LoopOutcome::MaxIterations { iterations }) => assert_eq!(iterations, 2),
        other => panic!("unexpected: {:?}", other),
    }
    assert!(w.executed.is_empty());
    assert!(w.appended.is_empty());
}

#[test]
fn no_signal_no_gates_even_when_validation_passes() {
    let mut c = config(2);
    c.quality_gates = vec![gate("a", "true")];
    let mut w = world(c);
    w.agent_output = "<promise>complete</promise>".to_string();
    w.run().unwrap();
    assert_eq!(w.programs(), vec![AGENT, "validate", AGENT, "validate"]);
    assert!(!w.notices.iter().any(|n| matches!(n, Notice::GatesStarting)));
}

#[test]
fn failed_validation_no_gates_even_with_the_signal() {
    let mut c = config(2);
    c.quality_gates = vec![gate("a", "true")];
    let mut w = world(c);
    w.agent_output = SIGNAL.to_string();
    w.validation_exit = 1;
    match w.run() {
        Ok(LoopOutcome::MaxIterations { iterations }) => assert_eq!(iterations, 2),
        other => panic!("unexpected: {:?}", other),
    }
    assert_eq!(w.programs(), vec![AGENT, "validate", AGENT, "validate"]);
    assert!(w.store.unwrap().contains("Validation: FAILED\nPromise: FOUND\nSummary: Validation failed\n"));
}

#[test]
fn the_signal_on_standard_error_counts() {
    let mut w = world(config(3));
    w.agent_output = String::new();
    w.agent_stderr = format!("warning\n{}", SIGNAL);
    match w.run() {
        Ok(LoopOutcome::Complete { iterations }) => assert_eq!(iterations, 1),
        other => panic!("unexpected: {:?}", other),
    }
}

#[test]
fn a_failing_agent_is_no_reason_to_stop() {
    let mut w = world(config(2));
    w.agent_exit = 1;
    w.agent_stderr = "rate limited".to_string();
    match w.run() {
        Ok(LoopOutcome::MaxIterations { iterations }) => assert_eq!(iterations, 2),
        other => panic!("unexpected: {:?}", other),
    }
    assert_eq!(w.appended.len(), 2);
    assert!(w
        .notices
        .iter()
        .any(|n| matches!(n, Notice::AgentComplained { stderr } if stderr == "rate limited")));
}

#[test]
fn failed_gates_let_the_loop_go_on_and_all_of_them_run() {
    let mut c = config(2);
    c.quality_gates = vec![gate("a", "false"), gate("b", "true"), gate("c", "false")];
    let mut w = world(c);
    w.agent_output = SIGNAL.to_string();
    match w.run() {
        Ok(LoopOutcome::MaxIterations { iterations }) => assert_eq!(iterations, 2),
        other => panic!("unexpected: {:?}", other),
    }
    assert_eq!(
        w.programs(),
        vec![
            AGENT, "validate", "false", "true", "false",
            AGENT, "validate", "false", "true", "false",
        ]
    );
    let reports: Vec<&Notice> =
        w.notices.iter().filter(|n| matches!(n, Notice::GatesFinished { .. })).collect();
    assert_eq!(reports.len(), 2);
    match reports[0] {
        Notice::GatesFinished { result } => {
            assert!(!result.all_passed);
            assert_eq!(result.results.len(), 3);
            assert_eq!(result.results[0], ("a".to_string(), false, "\ngate said no".to_string()));
            assert!(result.results[1].1);
        }
        _ => unreachable!(),
    }
    assert_eq!(w.notices.iter().filter(|n| matches!(n, Notice::GatesFailed)).count(), 2);
    assert_eq!(w.slept, vec![2]);
}

#[test]
fn a_gate_that_does_not_resolve_breaks_the_gates_off_and_the_loop_goes_on() {
    let mut c = config(2);
    c.quality_gates = vec![
        gate("a", "true"),
        QualityGate { name: "b".to_string(), command: None, script: None },
        gate("c", "true"),
    ];
    let mut w = world(c);
    w.agent_output = SIGNAL.to_string();
    match w.run() {
        Ok(LoopOutcome::MaxIterations { iterations }) => assert_eq!(iterations, 2),
        other => panic!("unexpected: {:?}", other),
    }
    assert_eq!(w.programs(), vec![AGENT, "validate", AGENT, "validate"]);
    assert_eq!(w.appended.len(), 2);
    let aborted: Vec<&Notice> =
        w.notices.iter().filter(|n| matches!(n, Notice::GatesAborted { .. })).collect();
    assert_eq!(aborted.len(), 2);
    match aborted[0] {
        Notice::GatesAborted { error } => {
            assert_eq!(error, "Gate 'b' has neither command nor script")
        }
        _ => unreachable!(),
    }
    assert!(!w.notices.iter().any(|n| matches!(n, Notice::GatesFinished { .. })));
    assert_eq!(w.slept, vec![2]);
}

#[test]
fn failing_version_control_is_no_reason_to_stop() {
    let mut c = config(2);
    c.git.auto_commit = true;
    let mut w = world(c);
    w.changes = " M x
".to_string();
    w.status_exit = 128;
    match w.run() {
        Ok(LoopOutcome::MaxIterations { iterations }) => assert_eq!(iterations, 2),
        other => panic!("unexpected: {:?}", other),
    }
    assert_eq!(
        w.programs(),
        vec![
            AGENT, "git rev-parse", "git status", "validate",
            AGENT, "git rev-parse", "git status", "validate",
        ]
    );
    assert!(w.notices.iter().any(
        |n| matches!(n, Notice::CommitSkipped { error } if error == "git status failed: status broke")
    ));
    assert_eq!(w.appended.len(), 2);
}

#[test]
fn a_commit_that_fails_is_no_reason_to_stop() {
    let mut c = config(1);
    c.git.auto_commit = true;
    let mut w = world(c);
    w.changes = " M x
".to_string();
    w.commit_exit = 1;
    match w.run() {
        Ok(LoopOutcome::MaxIterations { iterations }) => assert_eq!(iterations, 1),
        other => panic!("unexpected: {:?}", other),
    }
    assert_eq!(
        w.programs(),
        vec![AGENT, "git rev-parse", "git status", "git add", "git commit", "validate"]
    );
    assert!(w.notices.iter().any(
        |n| matches!(n, Notice::CommitSkipped { error } if error == "git commit failed: hook said no")
    ));
    assert!(!w.notices.iter().any(|n| matches!(n, Notice::Committed { .. })));
}

#[test]
fn version_control_that_cannot_start_is_no_reason_to_stop() {
    let mut c = config(1);
    c.git.auto_commit = true;
    let mut w = world(c);
    w.git_starts = false;
    match w.run() {
        Ok(LoopOutcome::MaxIterations { iterations }) => assert_eq!(iterations, 1),
        other => panic!("unexpected: {:?}", other),
    }
    assert_eq!(w.programs(), vec![AGENT, "git rev-parse", "git status", "validate"]);
    assert!(w
        .notices
        .iter()
        .any(|n| matches!(n, Notice::CommitSkipped { error } if error == "Failed to run git status")));
}

#[test]
fn validation_that_cannot_start_has_not_passed() {
    let mut c = config(2);
    c.quality_gates = vec![gate("a", "true")];
    let mut w = world(c);
    w.agent_output = SIGNAL.to_string();
    w.validation_starts = false;
    match w.run() {
        Ok(LoopOutcome::MaxIterations { iterations }) => assert_eq!(iterations, 2),
        other => panic!("unexpected: {:?}", other),
    }
    assert_eq!(w.programs(), vec![AGENT, "validate", AGENT, "validate"]);
    assert!(w.store.clone().unwrap().contains("Validation: FAILED\nPromise: FOUND\n"));
    assert!(w.notices.iter().any(|n| matches!(
        n,
        Notice::ValidationNotRun { error } if error == "Failed to run validation command: validate"
    )));
}

#[test]
fn the_configuration_is_read_again_for_each_iteration() {
    let mut w = world(config(3));
    let mut second = config(3);
    second.loop_config.completion_signal = "working".to_string();
    second.loop_config.sleep_between_secs = 9;
    w.reloads = vec![
        ConfigFile::Parsed(config(3)),
        ConfigFile::Parsed(config(3)),
        ConfigFile::Invalid { reason: "half written".to_string() },
        ConfigFile::Parsed(second),
    ];
    match w.run() {
        Ok(LoopOutcome::Complete { iterations }) => assert_eq!(iterations, 3),
        other => panic!("unexpected: {:?}", other),
    }
    assert_eq!(w.slept, vec![2, 2]);
    assert_eq!(w.appended.len(), 3);
}

#[test]
fn a_raised_limit_does_not_lengthen_the_run() {
    let mut w = world(config(1));
    w.reloads = vec![ConfigFile::Parsed(config(1)), ConfigFile::Parsed(config(4))];
    match w.run() {
        Ok(LoopOutcome::MaxIterations { iterations }) => assert_eq!(iterations, 4),
        other => panic!("unexpected: {:?}", other),
    }
    assert_eq!(w.appended.len(), 1);
    assert_eq!(w.slept, vec![2]);
}

#[test]
fn a_missing_configuration_ends_the_run_before_it_begins() {
    let mut w = world(config(1));
    w.config = ConfigFile::Missing;
    match w.run() {
        Err(RunError::Config(e)) => assert_eq!(e.message(), "Failed to read config file"),
        other => panic!("unexpected: {:?}", other),
    }
    let mut w = world(config(1));
    w.config = ConfigFile::Invalid { reason: "not yaml".to_string() };
    match w.run() {
        Err(e) => assert_eq!(e.message(), "Failed to load config: not yaml"),
        other => panic!("unexpected: {:?}", other),
    }
}

#[test]
fn an_unreadable_store_ends_the_run_before_it_begins() {
    let mut w = world(config(1));
    w.store_unreadable = true;
    match w.run() {
        Err(e) => {
            assert!(matches!(e, RunError::Progress { .. }));
            assert_eq!(e.message(), "Failed to read progress file: is a directory");
        }
        other => panic!("unexpected: {:?}", other),
    }
    assert!(w.executed.is_empty());
}

#[test]
fn a_record_that_cannot_be_appended_ends_the_run() {
    let mut w = world(config(3));
    w.append_fails = true;
    match w.run() {
        Ok(LoopOutcome::Error { iterations, error }) => {
            assert_eq!(iterations, 0);
            assert_eq!(error, "Failed to write to progress file: disk full");
        }
        other => panic!("unexpected: {:?}", other),
    }
    assert_eq!(w.programs(), vec![AGENT, "validate"]);
}

#[test]
fn an_instant_that_cannot_be_written_ends_the_run() {
    let mut w = world(config(3));
    w.clock = Timestamp { secs: i64::MAX, nanos: 0 };
    w.store = Some("## Iteration 1\n\n".to_string());
    match w.run() {
        Ok(LoopOutcome::Error { iterations, error }) => {
            assert_eq!(iterations, 1);
            assert_eq!(error, "Failed to write the time of the iteration");
        }
        other => panic!("unexpected: {:?}", other),
    }
    assert!(w.appended.is_empty());
}

#[test]
fn an_event_that_was_not_asked_for_ends_the_run() {
    let runner = LoopRunner::new("/work", "plan.md", AGENT);
    let (state, turn) = runner.run(runner.start(), Event::Slept);
    assert!(matches!(turn.action, Action::Fail(RunError::Protocol)));
    assert!(state.is_finished());
    let (state, turn) = runner.run(state, Event::Start);
    assert!(matches!(turn.action, Action::Fail(RunError::Protocol)));
    assert_eq!(state.phase(), Phase::Finished);
    match turn.action {
        Action::Fail(e) => assert_eq!(e.message(), "Unexpected event"),
        _ => unreachable!(),
    }
}

fn reloading(runner: &LoopRunner) -> LoopState {
    let (state, _) = runner.run(runner.start(), Event::Start);
    let (state, _) = runner.run(state, Event::Config(ConfigFile::Parsed(config(3))));
    let (state, turn) = runner.run(state, Event::Store(StoreRead::Absent));
    assert!(matches!(turn.action, Action::LoadConfig { .. }));
    assert_eq!(state.phase(), Phase::Reloading);
    assert_eq!(state.iteration(), 1);
    assert_eq!(state.config().loop_config.max_iterations, 3);
    state
}

#[test]
fn the_agent_gets_the_prompt_as_its_last_argument() {
    let runner = LoopRunner::new("/work", "plan.md", AGENT);
    let state = reloading(&runner);
    let (state, turn) =
        runner.reload_with(state, ConfigFile::Missing, Ok("do one thing".to_string()));
    match turn.action {
        Action::Locate { program } => assert_eq!(program, AGENT),
        other => panic!("unexpected: {:?}", other),
    }
    assert!(matches!(turn.notices[0], Notice::AgentStarting { iteration: 1 }));
    let (_, turn) = runner.run(state, Event::Located(true));
    match turn.action {
        Action::Execute(spec) => {
            assert_eq!(spec.program, AGENT);
            assert_eq!(spec.dir, "/work");
            assert_eq!(
                spec.args,
                vec![
                    "--print",
                    "--model",
                    "opus",
                    "--max-turns",
                    "1",
                    "--dangerously-skip-permissions",
                    "do one thing"
                ]
            );
        }
        other => panic!("unexpected: {:?}", other),
    }
}

#[test]
fn a_prompt_that_cannot_be_rendered_breaks_the_run_off() {
    let runner = LoopRunner::new("/work", "plan.md", AGENT);
    let state = reloading(&runner);
    let failed = Err(PromptError::Render { reason: "boom".to_string() });
    let (state, turn) = runner.reload_with(state, ConfigFile::Missing, failed);
    match turn.action {
        Action::Finish(LoopOutcome::Error { iterations, error }) => {
            assert_eq!(iterations, 0);
            assert_eq!(error, "Failed to render prompt template");
        }
        other => panic!("unexpected: {:?}", other),
    }
    assert!(state.is_finished());
    let (_, turn) = runner.reload_with(runner.start(), ConfigFile::Missing, Ok(String::new()));
    assert!(matches!(turn.action, Action::Fail(RunError::Protocol)));
    let (_, turn) = runner.stamp_with(runner.start(), Some("now".to_string()));
    assert!(matches!(turn.action, Action::Fail(RunError::Protocol)));
}

#[test]
fn the_machine_renders_the_prompt_itself() {
    let runner = LoopRunner::new("/work", "docs/plan.md", AGENT);
    let state = reloading(&runner);
    let (state, _) = runner.run(state, Event::Config(ConfigFile::Parsed(config(3))));
    let (_, turn) = runner.run(state, Event::Located(true));
    let expected = build_prompt(SIGNAL, "docs/plan.md").unwrap();
    match turn.action {
        Action::Execute(spec) => assert_eq!(spec.args.last().unwrap(), &expected),
        other => panic!("unexpected: {:?}", other),
    }
}

#[test]
fn the_record_is_written_with_the_stamp_handed_in() {
    let runner = LoopRunner::new("/work", "plan.md", AGENT);
    let state = reloading(&runner);
    let (state, _) = runner.reload_with(state, ConfigFile::Missing, Ok("p".to_string()));
    let (state, _) = runner.run(state, Event::Located(true));
    let (state, turn) = runner.run(state, Event::Executed(exited(0, "out", "")));
    assert!(matches!(turn.action, Action::Execute(_)));
    assert_eq!(state.phase(), Phase::Validating);
    let (state, turn) = runner.run(state, Event::Executed(exited(1, "", "")));
    match turn.action {
        Action::ReadProgress { path } => assert_eq!(path, "/work/.rwl/progress.txt"),
        other => panic!("unexpected: {:?}", other),
    }
    assert_eq!(state.phase(), Phase::ProbingStore);
    let (state, turn) = runner.run(state, Event::Store(StoreRead::Text("# log\n".to_string())));
    assert!(matches!(turn.action, Action::ReadClock));
    let (state, turn) = runner.stamp_with(state, Some("at noon".to_string()));
    match turn.action {
        Action::Append { path, text } => {
            assert_eq!(path, "/work/.rwl/progress.txt");
            assert_eq!(
                text,
                "## Iteration 1\nTimestamp: at noon\nValidation: FAILED\nPromise: NOT FOUND\nSummary: Validation failed\n\n"
            );
        }
        other => panic!("unexpected: {:?}", other),
    }
    assert_eq!(state.phase(), Phase::Appending);
    let (state, turn) = runner.run(state, Event::Written { error: None });
    assert!(matches!(turn.action, Action::Sleep { secs: 2 }));
    match &turn.notices[0] {
        Notice::IterationLogged { record } => {
            assert_eq!(record.iteration, 1);
            assert!(!record.validation_passed);
            assert!(!record.promise_found);
        }
        other => panic!("unexpected: {:?}", other),
    }
    assert_eq!(state.phase(), Phase::Sleeping);
}

#[test]
fn a_stamp_that_holds_the_marker_is_not_written() {
    let runner = LoopRunner::new("/work", "plan.md", AGENT);
    let state = reloading(&runner);
    let (state, _) = runner.reload_with(state, ConfigFile::Missing, Ok("p".to_string()));
    let (state, _) = runner.run(state, Event::Located(true));
    let (state, _) = runner.run(state, Event::Executed(exited(0, "out", "")));
    let (state, turn) = runner.run(state, Event::Executed(exited(0, "", "")));
    assert!(matches!(turn.action, Action::ReadProgress { .. }));
    let (state, turn) = runner.run(state, Event::Store(StoreRead::Absent));
    assert!(matches!(turn.action, Action::ReadClock));
    let (state, turn) = runner.stamp_with(state, Some("noon\n## Iteration 9".to_string()));
    match turn.action {
        Action::Finish(LoopOutcome::Error { iterations, error }) => {
            assert_eq!(iterations, 0);
            assert_eq!(error, "Failed to write the time of the iteration");
        }
        other => panic!("unexpected: {:?}", other),
    }
    assert!(state.is_finished());
}

#[test]
fn a_store_whose_summary_quotes_the_marker_resumes_after_its_records() {
    let mut w = world(config(3));
    w.store = Some(
        "# RWL Progress Log\n\n## Iteration 1\nTimestamp: t\nValidation: PASSED\nPromise: NOT FOUND\nSummary: redo of ## Iteration 3\n\n"
            .to_string(),
    );
    w.run().unwrap();
    assert_eq!(w.appended.len(), 2);
    assert!(w.appended[0].starts_with("## Iteration 2\n"));
    assert!(w.appended[1].starts_with("## Iteration 3\n"));
}

fn validated(runner: &LoopRunner) -> LoopState {
    let state = reloading(runner);
    let (state, _) = runner.reload_with(state, ConfigFile::Missing, Ok("p".to_string()));
    let (state, _) = runner.run(state, Event::Located(true));
    let (state, _) = runner.run(state, Event::Executed(exited(0, "out", "")));
    let (state, turn) = runner.run(state, Event::Executed(exited(0, "", "")));
    assert!(matches!(turn.action, Action::ReadProgress { .. }));
    state
}

#[test]
fn a_record_is_appended_on_a_line_of_its_own() {
    let runner = LoopRunner::new("/work", "plan.md", AGENT);
    let record = "## Iteration 1\nTimestamp: now\nValidation: PASSED\nPromise: NOT FOUND\nSummary: Validation passed, waiting for completion\n\n";
    let (state, _) = runner.run(validated(&runner), Event::Store(StoreRead::Text("x".to_string())));
    let (_, turn) = runner.stamp_with(state, Some("now".to_string()));
    match turn.action {
        Action::Append { text, .. } => assert_eq!(text, format!("\n{}", record)),
        other => panic!("unexpected: {:?}", other),
    }
    let (state, _) = runner.run(validated(&runner), Event::Store(StoreRead::Text("x\n".to_string())));
    let (_, turn) = runner.stamp_with(state, Some("now".to_string()));
    match turn.action {
        Action::Append { text, .. } => assert_eq!(text, record),
        other => panic!("unexpected: {:?}", other),
    }
    let (state, _) = runner.run(validated(&runner), Event::Store(StoreRead::Absent));
    let (_, turn) = runner.stamp_with(state, Some("now".to_string()));
    match turn.action {
        Action::Append { text, .. } => assert_eq!(text, record),
        other => panic!("unexpected: {:?}", other),
    }
}

#[test]
fn a_store_that_cannot_be_read_for_the_record_ends_the_run() {
    let runner = LoopRunner::new("/work", "plan.md", AGENT);
    let unreadable = StoreRead::Unreadable { reason: "gone".to_string() };
    let (state, turn) = runner.run(validated(&runner), Event::Store(unreadable));
    match turn.action {
        Action::Finish(LoopOutcome::Error { iterations, error }) => {
            assert_eq!(iterations, 0);
            assert_eq!(error, "Failed to write to progress file: gone");
        }
        other => panic!("unexpected: {:?}", other),
    }
    assert!(state.is_finished());
}

#[test]
fn a_store_with_an_open_last_line_is_counted_on_across_runs() {
    let mut w = world(config(2));
    w.store = Some("# RWL Progress Log\nnotes without a line feed".to_string());
    match w.run() {
        Ok(LoopOutcome::MaxIterations { iterations }) => assert_eq!(iterations, 2),
        other => panic!("unexpected: {:?}", other),
    }
    assert!(w.appended[0].starts_with("\n## Iteration 1\n"));
    assert!(w.appended[1].starts_with("## Iteration 2\n"));
    let store = w.store.clone().unwrap();
    assert_eq!(count_records(&store), 2);

    let mut again = world(config(4));
    again.store = Some(format!("{}the agent wrote this", store));
    again.run().unwrap();
    assert!(again.appended[0].starts_with("\n## Iteration 3\n"));
    assert!(again.appended[1].starts_with("## Iteration 4\n"));
    assert_eq!(count_records(&again.store.unwrap()), 4);
}

#[test]
fn summaries_and_commands_have_their_words() {
    assert_eq!(summarize(true, true), "Complete");
    assert_eq!(summarize(true, false), "Validation passed, waiting for completion");
    assert_eq!(summarize(false, true), "Validation failed");
    assert_eq!(summarize(false, false), "Validation failed");
    assert_eq!(render_commit_message("rwl: iteration {iteration}", 12), "rwl: iteration 12");
    assert_eq!(render_commit_message("no place", 1), "no place");
    let mut llm = Config::default().llm;
    llm.dangerously_skip_permissions = false;
    llm.model = "sonnet".to_string();
    let spec = agent("run-it", "/w", &llm, "prompt text");
    assert_eq!(spec.program, "run-it");
    assert_eq!(spec.args, vec!["--print", "--model", "sonnet", "--max-turns", "1", "prompt text"]);
}
