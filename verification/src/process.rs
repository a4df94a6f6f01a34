//! Commands for the caller to execute, and what their execution gave.
//!
//! Nothing here starts a process. A function that needs one hands back the
//! command as a value; the caller runs it and comes back with the outcome.

use crate::text::views;
use vstd::prelude::*;

verus! {

/// A program to start, with its arguments, in a working directory.
#[derive(Debug)]
pub struct CommandSpec {
    pub program: String,
    pub args: Vec<String>,
    pub dir: String,
}

pub struct CommandSpecView {
    pub program: Seq<char>,
    pub args: Seq<Seq<char>>,
    pub dir: Seq<char>,
}

impl View for CommandSpec {
    type V = CommandSpecView;

    open spec fn view(&self) -> CommandSpecView {
        CommandSpecView { program: self.program@, args: views(self.args@), dir: self.dir@ }
    }
}

/// What a process that ran to its end left behind.
#[derive(Debug)]
pub struct CommandOutput {
    /// The exit code, where the process ended with one.
    pub code: Option<i32>,
    pub stdout: String,
    pub stderr: String,
}

pub struct CommandOutputView {
    pub code: Option<i32>,
    pub stdout: Seq<char>,
    pub stderr: Seq<char>,
}

impl View for CommandOutput {
    type V = CommandOutputView;

    open spec fn view(&self) -> CommandOutputView {
        CommandOutputView {
            code: self.code,
            stdout: self.stdout@,
            stderr: self.stderr@,
        }
    }
}

impl CommandOutputView {
    /// The process succeeded: it ended with the exit code zero.
    pub open spec fn success(self) -> bool {
        self.code == Some(0i32)
    }

    /// Standard output, a line feed, standard error.
    pub open spec fn combined(self) -> Seq<char> {
        self.stdout + seq!['\n'] + self.stderr
    }

    /// The exit code, or -1 where the process ended without one.
    pub open spec fn exit_code(self) -> i32 {
        match self.code {
            Some(c) => c,
            None => -1i32,
        }
    }
}

impl CommandOutput {
    /// Whether the process succeeded: whether it ended with the exit code zero.
    pub fn success(&self) -> (r: bool)
        ensures
            r == self@.success(),
    {
        match self.code {
            Some(c) => c == 0,
            None => false,
        }
    }

    /// Standard output and standard error as one text.
    pub fn combined(&self) -> (r: String)
        ensures
            r@ == self@.combined(),
    {
        let mut r = self.stdout.clone();
        r.push('\n');
        r.append(self.stderr.as_str());
        r
    }

    /// The exit code, or -1 where the process ended without one.
    pub fn exit_code(&self) -> (r: i32)
        ensures
            r == self@.exit_code(),
    {
        match self.code {
            Some(c) => c,
            None => -1,
        }
    }
}

impl Clone for CommandOutput {
    fn clone(&self) -> (r: Self)
        ensures
            r@ == self@,
    {
        CommandOutput {
            code: self.code,
            stdout: self.stdout.clone(),
            stderr: self.stderr.clone(),
        }
    }
}

/// What came of the caller's attempt to execute a command.
#[derive(Debug)]
pub enum Execution {
    /// The process was started and ran to its end.
    Finished(CommandOutput),
    /// The process could not be started.
    NotStarted { reason: String },
}

pub enum ExecutionView {
    Finished(CommandOutputView),
    NotStarted { reason: Seq<char> },
}

impl View for Execution {
    type V = ExecutionView;

    open spec fn view(&self) -> ExecutionView {
        match self {
            Execution::Finished(o) => ExecutionView::Finished(o@),
            Execution::NotStarted { reason } => ExecutionView::NotStarted { reason: reason@ },
        }
    }
}

impl Clone for Execution {
    fn clone(&self) -> (r: Self)
        ensures
            r@ == self@,
    {
        match self {
            Execution::Finished(o) => Execution::Finished(o.clone()),
            Execution::NotStarted { reason } => Execution::NotStarted { reason: reason.clone() },
        }
    }
}

/// Where a computation that needs processes stands: it asks for a command to
/// be executed, or it has its result.
#[derive(Debug)]
pub enum Step<T> {
    Run(CommandSpec),
    Done(T),
}

/// The view of a step whose result has the view `V`.
pub enum StepView<V> {
    Run(CommandSpecView),
    Done(V),
}

/// A command built from a program, its arguments and a directory.
pub fn command(program: &str, args: Vec<String>, dir: &str) -> (c: CommandSpec)
    ensures
        c@ == (CommandSpecView { program: program@, args: views(args@), dir: dir@ }),
{
    CommandSpec { program: program.to_string(), args, dir: dir.to_string() }
}

/// The command that hands `script` to the shell.
pub fn shell(script: &str, dir: &str) -> (c: CommandSpec)
    ensures
        c@ == shell_command(script@, dir@),
{
    let mut args: Vec<String> = Vec::new();
    args.push("-c".to_string());
    args.push(script.to_string());
    assert(views(args@) =~= seq!["-c"@, script@]);
    command("sh", args, dir)
}

/// `sh -c script`, in `dir`.
pub open spec fn shell_command(script: Seq<char>, dir: Seq<char>) -> CommandSpecView {
    CommandSpecView { program: "sh"@, args: seq!["-c"@, script], dir }
}

} // verus!
