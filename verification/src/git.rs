//! Version control through `git`: which commands to execute, and what their
//! outcomes mean.
//!
//! Each operation is a function of the executions seen so far: with too few it
//! asks for the next command, with enough it gives its result.

use crate::process::{
    command, CommandOutputView, CommandSpec, CommandSpecView, Execution,
    ExecutionView, Step, StepView,
};
use crate::text::{contains, decimal, find, lines, split_lines, to_decimal, trim, trimmed, views};
use vstd::prelude::*;

verus! {

/// The operations of `git` that the library asks for.
#[derive(Debug, Clone, Copy, PartialEq, Eq, Structural)]
pub enum GitOperation {
    Status,
    Add,
    Commit,
    Log,
}

impl GitOperation {
    /// The name of the subcommand.
    pub open spec fn word(self) -> Seq<char> {
        match self {
            GitOperation::Status => "status"@,
            GitOperation::Add => "add"@,
            GitOperation::Commit => "commit"@,
            GitOperation::Log => "log"@,
        }
    }

    /// The name of the subcommand.
    pub fn name(&self) -> (r: &'static str)
        ensures
            r@ == self.word(),
    {
        match self {
            GitOperation::Status => "status",
            GitOperation::Add => "add",
            GitOperation::Commit => "commit",
            GitOperation::Log => "log",
        }
    }
}

/// Why an operation of `git` failed.
#[derive(Debug)]
pub enum GitError {
    /// `git` could not be started.
    NotStarted { operation: GitOperation, reason: String },
    /// `git` ended with a status other than zero.
    Failed { operation: GitOperation, stderr: String },
}

pub enum GitErrorView {
    NotStarted { operation: GitOperation, reason: Seq<char> },
    Failed { operation: GitOperation, stderr: Seq<char> },
}

impl View for GitError {
    type V = GitErrorView;

    open spec fn view(&self) -> GitErrorView {
        match self {
            GitError::NotStarted { operation, reason } => GitErrorView::NotStarted {
                operation: *operation,
                reason: reason@,
            },
            GitError::Failed { operation, stderr } => GitErrorView::Failed {
                operation: *operation,
                stderr: stderr@,
            },
        }
    }
}

impl GitErrorView {
    pub open spec fn message(self) -> Seq<char> {
        match self {
            GitErrorView::NotStarted { operation, reason } => "Failed to run git "@
                + operation.word(),
            GitErrorView::Failed { operation, stderr } => "git "@ + operation.word()
                + " failed: "@ + stderr,
        }
    }
}

impl GitError {
    /// The error in words.
    pub fn message(&self) -> (r: String)
        ensures
            r@ == self@.message(),
    {
        match self {
            GitError::NotStarted { operation, reason } => {
                let mut r = "Failed to run git ".to_string();
                r.append(operation.name());
                r
            },
            GitError::Failed { operation, stderr } => {
                let mut r = "git ".to_string();
                r.append(operation.name());
                r.append(" failed: ");
                r.append(stderr.as_str());
                r
            },
        }
    }
}

/// `git` with `args`, in `root`.
pub open spec fn git(root: Seq<char>, args: Seq<Seq<char>>) -> CommandSpecView {
    CommandSpecView { program: "git"@, args, dir: root }
}

/// The outcome of one execution of `git`: its output where it ended with
/// status zero, and the error otherwise.
pub open spec fn checked(operation: GitOperation, execution: ExecutionView) -> Result<
    CommandOutputView,
    GitErrorView,
> {
    match execution {
        ExecutionView::NotStarted { reason } => Err(GitErrorView::NotStarted { operation, reason }),
        ExecutionView::Finished(o) => if o.success() {
            Ok(o)
        } else {
            Err(GitErrorView::Failed { operation, stderr: o.stderr })
        },
    }
}

/// Whether the work tree at `root` has uncommitted changes: whether
/// `git status --porcelain` prints anything but white space.
pub open spec fn changes(root: Seq<char>, executions: Seq<ExecutionView>) -> Result<
    StepView<bool>,
    GitErrorView,
> {
    if executions.len() == 0 {
        Ok(StepView::Run(git(root, seq!["status"@, "--porcelain"@])))
    } else {
        match checked(GitOperation::Status, executions[0]) {
            Err(e) => Err(e),
            Ok(o) => Ok(StepView::Done(trim(o.stdout).len() > 0)),
        }
    }
}

/// `git commit` found nothing to commit: it says so, on either output.
pub open spec fn nothing_to_commit(o: CommandOutputView) -> bool {
    contains(o.stdout, "nothing to commit"@) || contains(o.stderr, "nothing to commit"@)
}

/// Stages everything at `root` and commits it with `message`. Staging
/// comes first, and where it fails no commit is asked for. A commit that
/// fails because there is nothing to commit counts as done.
pub open spec fn commit(root: Seq<char>, message: Seq<char>, executions: Seq<ExecutionView>)
    -> Result<StepView<()>, GitErrorView> {
    if executions.len() == 0 {
        Ok(StepView::Run(git(root, seq!["add"@, "-A"@])))
    } else {
        match checked(GitOperation::Add, executions[0]) {
            Err(e) => Err(e),
            Ok(_) => if executions.len() == 1 {
                Ok(StepView::Run(git(root, seq!["commit"@, "-m"@, message])))
            } else {
                match executions[1] {
                    ExecutionView::NotStarted { reason } => Err(
                        GitErrorView::NotStarted { operation: GitOperation::Commit, reason },
                    ),
                    ExecutionView::Finished(o) => if o.success() || nothing_to_commit(o) {
                        Ok(StepView::Done(()))
                    } else {
                        Err(
                            GitErrorView::Failed {
                                operation: GitOperation::Commit,
                                stderr: o.stderr,
                            },
                        )
                    },
                }
            },
        }
    }
}

/// The last `count` commits at `root`, one line each.
pub open spec fn commits(root: Seq<char>, count: nat, executions: Seq<ExecutionView>) -> Result<
    StepView<Seq<Seq<char>>>,
    GitErrorView,
> {
    if executions.len() == 0 {
        Ok(StepView::Run(git(root, seq!["log"@, "--oneline"@, "-"@ + decimal(count)])))
    } else {
        match checked(GitOperation::Log, executions[0]) {
            Err(e) => Err(e),
            Ok(o) => Ok(StepView::Done(lines(o.stdout))),
        }
    }
}

/// Whether `root` lies in a repository: whether `git rev-parse --git-dir`
/// can be started and ends with status zero.
pub open spec fn repository(root: Seq<char>, executions: Seq<ExecutionView>) -> StepView<bool> {
    if executions.len() == 0 {
        StepView::Run(git(root, seq!["rev-parse"@, "--git-dir"@]))
    } else {
        match executions[0] {
            ExecutionView::Finished(o) => StepView::Done(o.success()),
            ExecutionView::NotStarted { .. } => StepView::Done(false),
        }
    }
}

/// Checks one execution of `git`.
fn check(operation: GitOperation, execution: &Execution) -> (r: Result<(), GitError>)
    ensures
        match checked(operation, execution@) {
            Ok(_) => r is Ok,
            Err(e) => r matches Err(x) && x@ == e,
        },
{
    match execution {
        Execution::NotStarted { reason } => Err(
            GitError::NotStarted { operation, reason: reason.clone() },
        ),
        Execution::Finished(o) => if o.success() {
            Ok(())
        } else {
            Err(GitError::Failed { operation, stderr: o.stderr.clone() })
        },
    }
}

/// The standard output of an execution that ran to its end.
fn stdout_of(execution: &Execution) -> (r: &str)
    requires
        execution is Finished,
    ensures
        execution@ matches ExecutionView::Finished(o) && r@ == o.stdout,
{
    match execution {
        Execution::Finished(o) => o.stdout.as_str(),
        Execution::NotStarted { reason } => "",
    }
}

/// Runs `git` in the root of a work tree.
#[derive(Debug)]
pub struct GitManager {
    repo_root: String,
}

impl View for GitManager {
    type V = Seq<char>;

    closed spec fn view(&self) -> Seq<char> {
        self.repo_root@
    }
}

impl GitManager {
    pub fn new(repo_root: &str) -> (r: Self)
        ensures
            r@ == repo_root@,
    {
        GitManager { repo_root: repo_root.to_string() }
    }

    /// The root of the work tree.
    pub fn repo_root(&self) -> (r: &str)
        ensures
            r@ == self@,
    {
        self.repo_root.as_str()
    }

    fn run2(&self, a: &str, b: &str) -> (c: CommandSpec)
        ensures
            c@ == git(self@, seq![a@, b@]),
    {
        let mut args: Vec<String> = Vec::new();
        args.push(a.to_string());
        args.push(b.to_string());
        assert(views(args@) =~= seq![a@, b@]);
        command("git", args, self.repo_root.as_str())
    }

    fn run3(&self, a: &str, b: &str, c: &str) -> (r: CommandSpec)
        ensures
            r@ == git(self@, seq![a@, b@, c@]),
    {
        let mut args: Vec<String> = Vec::new();
        args.push(a.to_string());
        args.push(b.to_string());
        args.push(c.to_string());
        assert(views(args@) =~= seq![a@, b@, c@]);
        command("git", args, self.repo_root.as_str())
    }

    /// Whether there are uncommitted changes.
    pub fn has_changes(&self, executions: &Vec<Execution>) -> (r: Result<Step<bool>, GitError>)
        ensures
            match changes(self@, views(executions@)) {
                Ok(StepView::Run(c)) => r matches Ok(Step::Run(x)) && x@ == c,
                Ok(StepView::Done(b)) => r matches Ok(Step::Done(x)) && x == b,
                Err(e) => r matches Err(x) && x@ == e,
            },
    {
        if executions.len() == 0 {
            return Ok(Step::Run(self.run2("status", "--porcelain")));
        }
        check(GitOperation::Status, &executions[0])?;
        let printed = trimmed(stdout_of(&executions[0]));
        Ok(Step::Done(!printed.as_str().is_empty()))
    }

    /// Stages and commits all changes.
    pub fn auto_commit(&self, message: &str, executions: &Vec<Execution>) -> (r: Result<
        Step<()>,
        GitError,
    >)
        ensures
            match commit(self@, message@, views(executions@)) {
                Ok(StepView::Run(c)) => r matches Ok(Step::Run(x)) && x@ == c,
                Ok(StepView::Done(_)) => r matches Ok(Step::Done(_)),
                Err(e) => r matches Err(x) && x@ == e,
            },
    {
        if executions.len() == 0 {
            return Ok(Step::Run(self.run2("add", "-A")));
        }
        check(GitOperation::Add, &executions[0])?;
        if executions.len() == 1 {
            return Ok(Step::Run(self.run3("commit", "-m", message)));
        }
        match &executions[1] {
            Execution::NotStarted { reason } => Err(
                GitError::NotStarted { operation: GitOperation::Commit, reason: reason.clone() },
            ),
            Execution::Finished(o) => {
                if o.success() || find(o.stdout.as_str(), "nothing to commit") || find(
                    o.stderr.as_str(),
                    "nothing to commit",
                ) {
                    Ok(Step::Done(()))
                } else {
                    Err(
                        GitError::Failed {
                            operation: GitOperation::Commit,
                            stderr: o.stderr.clone(),
                        },
                    )
                }
            },
        }
    }

    /// The recent commits, newest first.
    pub fn recent_commits(&self, count: usize, executions: &Vec<Execution>) -> (r: Result<
        Step<Vec<String>>,
        GitError,
    >)
        ensures
            match commits(self@, count as nat, views(executions@)) {
                Ok(StepView::Run(c)) => r matches Ok(Step::Run(x)) && x@ == c,
                Ok(StepView::Done(l)) => r matches Ok(Step::Done(x)) && views(x@) == l,
                Err(e) => r matches Err(x) && x@ == e,
            },
    {
        if executions.len() == 0 {
            let mut limit = "-".to_string();
            limit.append(to_decimal(count as u64).as_str());
            return Ok(Step::Run(self.run3("log", "--oneline", limit.as_str())));
        }
        check(GitOperation::Log, &executions[0])?;
        Ok(Step::Done(split_lines(stdout_of(&executions[0]))))
    }

    /// Whether the root lies in a repository.
    pub fn is_repo(&self, executions: &Vec<Execution>) -> (r: Step<bool>)
        ensures
            match repository(self@, views(executions@)) {
                StepView::Run(c) => r matches Step::Run(x) && x@ == c,
                StepView::Done(b) => r matches Step::Done(x) && x == b,
            },
    {
        if executions.len() == 0 {
            return Step::Run(self.run2("rev-parse", "--git-dir"));
        }
        match &executions[0] {
            Execution::Finished(o) => Step::Done(o.success()),
            Execution::NotStarted { reason } => Step::Done(false),
        }
    }
}

} // verus!
