use rwl::git::{GitError, GitManager, GitOperation};
use rwl::process::{CommandOutput, CommandSpec, Execution, Step};

fn exited(code: i32, stdout: &str, stderr: &str) -> Execution {
    Execution::Finished(CommandOutput {
        code: Some(code),
        stdout: stdout.to_string(),
        stderr: stderr.to_string(),
    })
}

fn no_git() -> Execution {
    Execution::NotStarted { reason: "No such file or directory (os error 2)".to_string() }
}

fn asked<T: std::fmt::Debug>(step: Step<T>) -> CommandSpec {
    match step {
        Step::Run(c) => c,
        Step::Done(t) => panic!("done with {:?}", t),
    }
}

fn done<T>(step: Step<T>) -> T {
    match step {
        Step::Done(t) => t,
        Step::Run(c) => panic!("asks for {:?}", c),
    }
}

#[test]
fn test_is_repo_false_for_non_repo() {
    let git = GitManager::new("/tmp/not-a-repo");
    let command = asked(git.is_repo(&vec![]));
    assert_eq!(command.program, "git");
    assert_eq!(command.args, vec!["rev-parse", "--git-dir"]);
    assert_eq!(command.dir, "/tmp/not-a-repo");
    let outcome = exited(
        128,
        "",
        "fatal: not a git repository (or any of the parent directories): .git\n",
    );
    assert!(!done(git.is_repo(&vec![outcome])));
}

#[test]
fn test_is_repo_true_for_repo() {
    let git = GitManager::new("/tmp/repo");
    assert!(done(git.is_repo(&vec![exited(0, ".git\n", "")])));
}

#[test]
fn test_has_changes_false_for_clean_repo() {
    let git = GitManager::new("/tmp/repo");
    assert!(!done(git.has_changes(&vec![exited(0, "", "")]).unwrap()));
}

#[test]
fn test_has_changes_true_for_dirty_repo() {
    let git = GitManager::new("/tmp/repo");
    assert!(done(git.has_changes(&vec![exited(0, "?? test.txt\n", "")]).unwrap()));
}

#[test]
fn is_repo_is_false_where_git_cannot_be_started() {
    let git = GitManager::new(".");
    assert!(!done(git.is_repo(&vec![no_git()])));
}

#[test]
fn has_changes_asks_for_the_porcelain_status() {
    let git = GitManager::new("work");
    let command = asked(git.has_changes(&vec![]).unwrap());
    assert_eq!(command.program, "git");
    assert_eq!(command.args, vec!["status", "--porcelain"]);
    assert_eq!(command.dir, "work");
    assert_eq!(git.repo_root(), "work");
}

#[test]
fn blank_status_means_no_changes() {
    let git = GitManager::new(".");
    assert!(!done(git.has_changes(&vec![exited(0, " \n\t\n", "")]).unwrap()));
    assert!(done(git.has_changes(&vec![exited(0, " M src/lib.rs\n", "")]).unwrap()));
}

#[test]
fn failed_status_is_an_error() {
    let git = GitManager::new(".");
    match git.has_changes(&vec![exited(128, "", "fatal: not a git repository")]) {
        Err(e) => {
            assert!(matches!(e, GitError::Failed { operation: GitOperation::Status, .. }));
            assert_eq!(e.message(), "git status failed: fatal: not a git repository");
        }
        Ok(_) => panic!("no error"),
    }
    match git.has_changes(&vec![no_git()]) {
        Err(e) => {
            assert!(matches!(e, GitError::NotStarted { operation: GitOperation::Status, .. }));
            assert_eq!(e.message(), "Failed to run git status");
        }
        Ok(_) => panic!("no error"),
    }
}

#[test]
fn commit_stages_then_commits() {
    let git = GitManager::new("w");
    let add = asked(git.auto_commit("rwl: iteration 1", &vec![]).unwrap());
    assert_eq!(add.args, vec!["add", "-A"]);
    assert_eq!(add.program, "git");
    let commit = asked(git.auto_commit("rwl: iteration 1", &vec![exited(0, "", "")]).unwrap());
    assert_eq!(commit.args, vec!["commit", "-m", "rwl: iteration 1"]);
    assert_eq!(commit.dir, "w");
    done(git.auto_commit("rwl: iteration 1", &vec![exited(0, "", ""), exited(0, "[main 1] m\n", "")])
        .unwrap());
}

#[test]
fn nothing_to_commit_is_no_error() {
    let git = GitManager::new("w");
    let race = exited(1, "", "On branch main\nnothing to commit, working tree clean\n");
    done(git.auto_commit("m", &vec![exited(0, "", ""), race]).unwrap());
    let on_stdout = exited(1, "On branch main\nnothing to commit, working tree clean\n", "");
    done(git.auto_commit("m", &vec![exited(0, "", ""), on_stdout]).unwrap());
    let neither = exited(1, "On branch main\n", "");
    match git.auto_commit("m", &vec![exited(0, "", ""), neither]) {
        Err(e) => assert_eq!(e.message(), "git commit failed: "),
        Ok(_) => panic!("no error"),
    }
}

#[test]
fn failed_add_and_commit_are_errors() {
    let git = GitManager::new("w");
    match git.auto_commit("m", &vec![exited(1, "", "index locked")]) {
        Err(e) => assert_eq!(e.message(), "git add failed: index locked"),
        Ok(_) => panic!("no error"),
    }
    match git.auto_commit("m", &vec![no_git()]) {
        Err(e) => assert_eq!(e.message(), "Failed to run git add"),
        Ok(_) => panic!("no error"),
    }
    match git.auto_commit("m", &vec![exited(0, "", ""), exited(1, "", "hook failed")]) {
        Err(e) => {
            assert!(matches!(e, GitError::Failed { operation: GitOperation::Commit, .. }));
            assert_eq!(e.message(), "git commit failed: hook failed");
        }
        Ok(_) => panic!("no error"),
    }
    match git.auto_commit("m", &vec![exited(0, "", ""), no_git()]) {
        Err(e) => assert_eq!(e.message(), "Failed to run git commit"),
        Ok(_) => panic!("no error"),
    }
}

#[test]
fn recent_commits_are_the_lines_of_the_log() {
    let git = GitManager::new("w");
    let command = asked(git.recent_commits(5, &vec![]).unwrap());
    assert_eq!(command.args, vec!["log", "--oneline", "-5"]);
    let command = asked(git.recent_commits(120, &vec![]).unwrap());
    assert_eq!(command.args, vec!["log", "--oneline", "-120"]);
    let log = exited(0, "abc123 rwl: iteration 2\ndef456 initial\n", "");
    assert_eq!(
        done(git.recent_commits(5, &vec![log]).unwrap()),
        vec!["abc123 rwl: iteration 2".to_string(), "def456 initial".to_string()]
    );
    assert_eq!(done(git.recent_commits(5, &vec![exited(0, "", "")]).unwrap()), Vec::<String>::new());
    match git.recent_commits(5, &vec![exited(128, "", "fatal: bad revision")]) {
        Err(e) => assert_eq!(e.message(), "git log failed: fatal: bad revision"),
        Ok(_) => panic!("no error"),
    }
}
