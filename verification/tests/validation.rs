use rwl::config::{GateError, QualityGate};
use rwl::process::{CommandOutput, CommandSpec, Execution, Step};
use rwl::validation::{ValidationError, ValidationRunner};

fn exited(code: i32, stdout: &str, stderr: &str) -> Execution {
    Execution::Finished(CommandOutput {
        code: Some(code),
        stdout: stdout.to_string(),
        stderr: stderr.to_string(),
    })
}

/// What the shell gives for the commands `true` and `false`.
fn shell(spec: &CommandSpec) -> Execution {
    assert_eq!(spec.program, "sh");
    assert_eq!(spec.args[0], "-c");
    match spec.args[1].as_str() {
        "true" => exited(0, "", ""),
        "false" => exited(1, "", ""),
        other => panic!("no such command here: {}", other),
    }
}

fn run_validation(runner: &ValidationRunner, command: &str) -> rwl::validation::ValidationResult {
    let mut seen = Vec::new();
    loop {
        match runner.run_validation(command, &seen).unwrap() {
            Step::Run(spec) => seen.push(shell(&spec)),
            Step::Done(result) => return result,
        }
    }
}

fn run_gates(
    runner: &ValidationRunner,
    gates: &Vec<QualityGate>,
) -> Result<(rwl::validation::QualityGateResult, usize), ValidationError> {
    let mut seen = Vec::new();
    loop {
        match runner.run_quality_gates(gates, &seen)? {
            Step::Run(spec) => seen.push(shell(&spec)),
            Step::Done(result) => return Ok((result, seen.len())),
        }
    }
}

fn gate(name: &str, command: &str) -> QualityGate {
    QualityGate { name: name.to_string(), command: Some(command.to_string()), script: None }
}

#[test]
fn test_run_validation_success() {
    let runner = ValidationRunner::new("/tmp");

    let result = run_validation(&runner, "true");
    assert!(result.passed);
    assert_eq!(result.exit_code, 0);
}

#[test]
fn test_run_validation_failure() {
    let runner = ValidationRunner::new("/tmp");

    let result = run_validation(&runner, "false");
    assert!(!result.passed);
    assert_eq!(result.exit_code, 1);
}

#[test]
fn test_run_quality_gates_all_pass() {
    let runner = ValidationRunner::new("/tmp");

    let gates = vec![gate("gate1", "true"), gate("gate2", "true")];

    let (result, _) = run_gates(&runner, &gates).unwrap();
    assert!(result.all_passed);
    assert_eq!(result.results.len(), 2);
}

#[test]
fn test_run_quality_gates_some_fail() {
    let runner = ValidationRunner::new("/tmp");

    let gates = vec![gate("gate1", "true"), gate("gate2", "false")];

    let (result, _) = run_gates(&runner, &gates).unwrap();
    assert!(!result.all_passed);
    assert!(result.results[0].1); // gate1 passed
    assert!(!result.results[1].1); // gate2 failed
}

#[test]
fn validation_goes_to_the_shell_in_the_work_dir() {
    let runner = ValidationRunner::new("/work");
    match runner.run_validation("cargo test --all", &vec![]).unwrap() {
        Step::Run(spec) => {
            assert_eq!(spec.program, "sh");
            assert_eq!(spec.args, vec!["-c", "cargo test --all"]);
            assert_eq!(spec.dir, "/work");
        }
        Step::Done(_) => panic!("done before it ran"),
    }
    assert_eq!(runner.work_dir(), "/work");
}

#[test]
fn verdict_joins_the_two_outputs() {
    let runner = ValidationRunner::new(".");
    let outcome = exited(3, "out\n", "err\n");
    match runner.run_validation("x", &vec![outcome]).unwrap() {
        Step::Done(v) => {
            assert!(!v.passed);
            assert_eq!(v.exit_code, 3);
            assert_eq!(v.output, "out\n\nerr\n");
        }
        Step::Run(_) => panic!("asks again"),
    }
}

#[test]
fn a_killed_process_has_exit_code_minus_one() {
    let runner = ValidationRunner::new(".");
    let killed = Execution::Finished(CommandOutput {
        code: None,
        stdout: String::new(),
        stderr: String::new(),
    });
    match runner.run_validation("x", &vec![killed]).unwrap() {
        Step::Done(v) => {
            assert!(!v.passed);
            assert_eq!(v.exit_code, -1);
            assert_eq!(v.output, "\n");
        }
        Step::Run(_) => panic!("asks again"),
    }
}

#[test]
fn validation_that_cannot_start_is_an_error() {
    let runner = ValidationRunner::new(".");
    let failed = Execution::NotStarted { reason: "no sh".to_string() };
    match runner.run_validation("make check", &vec![failed]) {
        Err(e) => {
            assert!(matches!(e, ValidationError::ValidationNotStarted { .. }));
            assert_eq!(e.message(), "Failed to run validation command: make check");
        }
        Ok(_) => panic!("no error"),
    }
}

#[test]
fn every_gate_runs_after_a_failure() {
    let runner = ValidationRunner::new(".");
    let gates = vec![gate("a", "false"), gate("b", "true"), gate("c", "false"), gate("d", "true")];
    let (result, executed) = run_gates(&runner, &gates).unwrap();
    assert_eq!(executed, 4);
    assert!(!result.all_passed);
    let passed: Vec<bool> = result.results.iter().map(|r| r.1).collect();
    assert_eq!(passed, vec![false, true, false, true]);
    let names: Vec<&str> = result.results.iter().map(|r| r.0.as_str()).collect();
    assert_eq!(names, vec!["a", "b", "c", "d"]);
}

#[test]
fn no_gates_pass_as_a_whole() {
    let runner = ValidationRunner::new(".");
    let (result, executed) = run_gates(&runner, &vec![]).unwrap();
    assert!(result.all_passed);
    assert!(result.results.is_empty());
    assert_eq!(executed, 0);
}

#[test]
fn a_script_gate_runs_through_bash() {
    let runner = ValidationRunner::new("/w");
    let gates = vec![QualityGate {
        name: "s".to_string(),
        command: None,
        script: Some("./scripts/lint.sh".to_string()),
    }];
    match runner.run_quality_gates(&gates, &vec![]).unwrap() {
        Step::Run(spec) => {
            assert_eq!(spec.args, vec!["-c", "bash ./scripts/lint.sh"]);
            assert_eq!(spec.dir, "/w");
        }
        Step::Done(_) => panic!("done before it ran"),
    }
}

#[test]
fn gate_output_and_name_are_kept() {
    let runner = ValidationRunner::new(".");
    let gates = vec![gate("lint", "lint-it")];
    match runner.run_quality_gates(&gates, &vec![exited(2, "warn", "boom")]).unwrap() {
        Step::Done(r) => {
            assert!(!r.all_passed);
            assert_eq!(r.results, vec![("lint".to_string(), false, "warn\nboom".to_string())]);
        }
        Step::Run(_) => panic!("asks again"),
    }
}

#[test]
fn a_gate_that_does_not_resolve_is_found_before_any_gate_runs() {
    let runner = ValidationRunner::new(".");
    let broken = QualityGate { name: "broken".to_string(), command: None, script: None };
    let both = QualityGate {
        name: "both".to_string(),
        command: Some("x".to_string()),
        script: Some("y".to_string()),
    };
    let gates = vec![gate("a", "true"), broken, gate("c", "true"), both];
    match runner.run_quality_gates(&gates, &vec![]) {
        Err(ValidationError::Gate(GateError::Neither { name })) => assert_eq!(name, "broken"),
        other => panic!("unexpected: {:?}", other.map(|_| ())),
    }
    match runner.run_quality_gates(&gates, &vec![exited(0, "", ""), exited(1, "", "")]) {
        Err(ValidationError::Gate(GateError::Neither { name })) => assert_eq!(name, "broken"),
        other => panic!("unexpected: {:?}", other.map(|_| ())),
    }
    let two = vec![
        gate("a", "true"),
        QualityGate { name: "b".to_string(), command: None, script: None },
    ];
    match run_gates(&runner, &two) {
        Err(ValidationError::Gate(GateError::Neither { name })) => assert_eq!(name, "b"),
        other => panic!("unexpected: {:?}", other.map(|r| r.1)),
    }
    let first = vec![QualityGate {
        name: "both".to_string(),
        command: Some("x".to_string()),
        script: Some("y".to_string()),
    }];
    match runner.run_quality_gates(&first, &vec![]) {
        Err(e) => assert_eq!(e.message(), "Gate 'both' has both command and script"),
        Ok(_) => panic!("no error"),
    }
}

#[test]
fn a_gate_that_cannot_start_is_an_error() {
    let runner = ValidationRunner::new(".");
    let gates = vec![gate("a", "true"), gate("b", "check-b")];
    let seen = vec![exited(0, "", ""), Execution::NotStarted { reason: "no sh".to_string() }];
    match runner.run_quality_gates(&gates, &seen) {
        Err(e) => {
            assert!(matches!(e, ValidationError::GateNotStarted { .. }));
            assert_eq!(e.message(), "Failed to run quality gate command: check-b");
        }
        Ok(_) => panic!("no error"),
    }
}
