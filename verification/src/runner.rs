//! The loop itself, as a machine that never acts: it is told what happened,
//! decides, and says what is to be done next. Who drives it loads files,
//! starts processes, reads the clock and sleeps, and reports back.
//!
//! One iteration reloads the configuration, renders the prompt, runs the
//! agent, commits where that is wanted, validates, looks for the completion
//! signal, appends a record, on a line of its own however the store ends,
//! and, where validation passed and the signal was found, runs the quality
//! gates.
//!
//! Before the loop begins, a configuration or a progress store that cannot
//! be read breaks the run off. Once it has begun, a run ends with an outcome:
//! it ends early only where the agent cannot be run or the record of an
//! iteration cannot be written. Whatever else fails is taken as it comes:
//! version control that fails leaves the iteration without a commit, a
//! validation that cannot be started has not passed, quality gates that
//! break off have not passed, and the next iteration is the next attempt.

use crate::config::{
    join, joined, require, required, Config, ConfigError, ConfigErrorView, ConfigFile,
    ConfigFileView, ConfigView, LlmConfig, LlmConfigView,
};
use crate::git::{changes, commit, repository, GitError, GitErrorView, GitManager};
use crate::process::{
    command, CommandSpec, CommandSpecView, Execution, ExecutionView, Step, StepView,
};
use crate::progress::{
    count_records, entry, is_tidy, records, render_entry, tidy, IterationResult,
    IterationResultView, Timestamp, MARKER,
};
use crate::templates::{build_prompt, prompt, rendering, PromptError, PromptErrorView};
use crate::text::{
    contains, decimal, find, lemma_views_push, replace, replace_all, to_decimal, views,
};
use crate::validation::{
    quality_gates, validation, QualityGateResult, QualityGateResultView, ValidationRunner,
};
use vstd::prelude::*;

verus! {

/// How a run ended.
#[derive(Debug)]
pub enum LoopOutcome {
    Complete { iterations: u32 },
    MaxIterations { iterations: u32 },
    Stopped { iterations: u32, reason: String },
    Error { iterations: u32, error: String },
}

pub enum LoopOutcomeView {
    Complete { iterations: u32 },
    MaxIterations { iterations: u32 },
    Stopped { iterations: u32, reason: Seq<char> },
    Error { iterations: u32, error: Seq<char> },
}

impl View for LoopOutcome {
    type V = LoopOutcomeView;

    open spec fn view(&self) -> LoopOutcomeView {
        match self {
            LoopOutcome::Complete { iterations } => LoopOutcomeView::Complete {
                iterations: *iterations,
            },
            LoopOutcome::MaxIterations { iterations } => LoopOutcomeView::MaxIterations {
                iterations: *iterations,
            },
            LoopOutcome::Stopped { iterations, reason } => LoopOutcomeView::Stopped {
                iterations: *iterations,
                reason: reason@,
            },
            LoopOutcome::Error { iterations, error } => LoopOutcomeView::Error {
                iterations: *iterations,
                error: error@,
            },
        }
    }
}

/// Why a run broke off without an outcome. Once the loop has begun a run
/// ends with an outcome, unless its driver breaks the protocol.
#[derive(Debug)]
pub enum RunError {
    /// The configuration could not be loaded before the loop began.
    Config(ConfigError),
    /// The progress store could not be read before the loop began.
    Progress { reason: String },
    /// The machine was told of something it had not asked for.
    Protocol,
}

pub enum RunErrorView {
    Config(ConfigErrorView),
    Progress { reason: Seq<char> },
    Protocol,
}

impl View for RunError {
    type V = RunErrorView;

    open spec fn view(&self) -> RunErrorView {
        match self {
            RunError::Config(e) => RunErrorView::Config(e@),
            RunError::Progress { reason } => RunErrorView::Progress { reason: reason@ },
            RunError::Protocol => RunErrorView::Protocol,
        }
    }
}

impl RunErrorView {
    pub open spec fn message(self) -> Seq<char> {
        match self {
            RunErrorView::Config(e) => e.message(),
            RunErrorView::Progress { reason } => "Failed to read progress file: "@ + reason,
            RunErrorView::Protocol => "Unexpected event"@,
        }
    }
}

impl RunError {
    /// The error in words.
    pub fn message(&self) -> (r: String)
        ensures
            r@ == self@.message(),
    {
        match self {
            RunError::Config(e) => e.message(),
            RunError::Progress { reason } => {
                let mut r = "Failed to read progress file: ".to_string();
                r.append(reason.as_str());
                r
            },
            RunError::Protocol => "Unexpected event".to_string(),
        }
    }
}

/// What was found where the progress store is kept.
#[derive(Debug)]
pub enum StoreRead {
    /// There is no store yet.
    Absent,
    /// The text of the store.
    Text(String),
    /// The store is there and could not be read.
    Unreadable { reason: String },
}

pub enum StoreReadView {
    Absent,
    Text(Seq<char>),
    Unreadable { reason: Seq<char> },
}

impl View for StoreRead {
    type V = StoreReadView;

    open spec fn view(&self) -> StoreReadView {
        match self {
            StoreRead::Absent => StoreReadView::Absent,
            StoreRead::Text(t) => StoreReadView::Text(t@),
            StoreRead::Unreadable { reason } => StoreReadView::Unreadable { reason: reason@ },
        }
    }
}

/// What the driver reports to the machine.
#[derive(Debug)]
pub enum Event {
    /// The run begins.
    Start,
    /// The configuration file was read.
    Config(ConfigFile),
    /// The progress store was read.
    Store(StoreRead),
    /// The program was looked for on the search path.
    Located(bool),
    /// The command was executed, or could not be.
    Executed(Execution),
    /// The clock was read.
    Clock(Timestamp),
    /// The text was appended, or could not be.
    Written { error: Option<String> },
    /// The sleep is over.
    Slept,
}

pub enum EventView {
    Start,
    Config(ConfigFileView),
    Store(StoreReadView),
    Located(bool),
    Executed(ExecutionView),
    Clock(Timestamp),
    Written { error: Option<Seq<char>> },
    Slept,
}

impl View for Event {
    type V = EventView;

    open spec fn view(&self) -> EventView {
        match self {
            Event::Start => EventView::Start,
            Event::Config(f) => EventView::Config(f@),
            Event::Store(r) => EventView::Store(r@),
            Event::Located(b) => EventView::Located(*b),
            Event::Executed(e) => EventView::Executed(e@),
            Event::Clock(t) => EventView::Clock(*t),
            Event::Written { error } => EventView::Written {
                error: crate::config::text_of(*error),
            },
            Event::Slept => EventView::Slept,
        }
    }
}

/// What the machine asks of the driver.
#[derive(Debug)]
pub enum Action {
    /// Read the configuration file at `path`.
    LoadConfig { path: String },
    /// Read the progress store at `path`.
    ReadProgress { path: String },
    /// Look for `program` on the search path.
    Locate { program: String },
    /// Execute the command and wait for its end.
    Execute(CommandSpec),
    /// Read the clock.
    ReadClock,
    /// Append `text` to the progress store at `path`.
    Append { path: String, text: String },
    /// Sleep for `secs` seconds.
    Sleep { secs: u64 },
    /// The run is over, with this outcome.
    Finish(LoopOutcome),
    /// The run is over, without an outcome.
    Fail(RunError),
}

pub enum ActionView {
    LoadConfig { path: Seq<char> },
    ReadProgress { path: Seq<char> },
    Locate { program: Seq<char> },
    Execute(CommandSpecView),
    ReadClock,
    Append { path: Seq<char>, text: Seq<char> },
    Sleep { secs: u64 },
    Finish(LoopOutcomeView),
    Fail(RunErrorView),
}

impl View for Action {
    type V = ActionView;

    open spec fn view(&self) -> ActionView {
        match self {
            Action::LoadConfig { path } => ActionView::LoadConfig { path: path@ },
            Action::ReadProgress { path } => ActionView::ReadProgress { path: path@ },
            Action::Locate { program } => ActionView::Locate { program: program@ },
            Action::Execute(c) => ActionView::Execute(c@),
            Action::ReadClock => ActionView::ReadClock,
            Action::Append { path, text } => ActionView::Append { path: path@, text: text@ },
            Action::Sleep { secs } => ActionView::Sleep { secs: *secs },
            Action::Finish(o) => ActionView::Finish(o@),
            Action::Fail(e) => ActionView::Fail(e@),
        }
    }
}

/// What the machine lets the operator know on the way.
#[derive(Debug)]
pub enum Notice {
    /// The run takes up after `completed` recorded iterations, of at most `limit`.
    Resumed { completed: u32, limit: u32 },
    /// An iteration begins.
    IterationStarted { iteration: u32 },
    /// The agent is about to run.
    AgentStarting { iteration: u32 },
    /// The agent ended with a status other than zero and wrote this to standard error.
    AgentComplained { stderr: String },
    /// The changes were committed with this message.
    Committed { message: String },
    /// Version control failed: nothing was committed in this iteration.
    CommitSkipped { error: String },
    /// The validation command could not be started: validation counts as failed.
    ValidationNotRun { error: String },
    /// The record of the iteration was appended.
    IterationLogged { record: IterationResult },
    /// Validation passed and the signal was found: the quality gates run.
    GatesStarting,
    /// The quality gates have run.
    GatesFinished { result: QualityGateResult },
    /// Not every quality gate passed: the loop goes on.
    GatesFailed,
    /// The quality gates broke off, because one of them resolves to no
    /// command or could not be started: the loop goes on.
    GatesAborted { error: String },
}

pub enum NoticeView {
    Resumed { completed: u32, limit: u32 },
    IterationStarted { iteration: u32 },
    AgentStarting { iteration: u32 },
    AgentComplained { stderr: Seq<char> },
    Committed { message: Seq<char> },
    CommitSkipped { error: Seq<char> },
    ValidationNotRun { error: Seq<char> },
    IterationLogged { record: IterationResultView },
    GatesStarting,
    GatesFinished { result: QualityGateResultView },
    GatesFailed,
    GatesAborted { error: Seq<char> },
}

impl View for Notice {
    type V = NoticeView;

    open spec fn view(&self) -> NoticeView {
        match self {
            Notice::Resumed { completed, limit } => NoticeView::Resumed {
                completed: *completed,
                limit: *limit,
            },
            Notice::IterationStarted { iteration } => NoticeView::IterationStarted {
                iteration: *iteration,
            },
            Notice::AgentStarting { iteration } => NoticeView::AgentStarting {
                iteration: *iteration,
            },
            Notice::AgentComplained { stderr } => NoticeView::AgentComplained { stderr: stderr@ },
            Notice::Committed { message } => NoticeView::Committed { message: message@ },
            Notice::CommitSkipped { error } => NoticeView::CommitSkipped { error: error@ },
            Notice::ValidationNotRun { error } => NoticeView::ValidationNotRun { error: error@ },
            Notice::IterationLogged { record } => NoticeView::IterationLogged { record: record@ },
            Notice::GatesStarting => NoticeView::GatesStarting,
            Notice::GatesFinished { result } => NoticeView::GatesFinished { result: result@ },
            Notice::GatesFailed => NoticeView::GatesFailed,
            Notice::GatesAborted { error } => NoticeView::GatesAborted { error: error@ },
        }
    }
}

/// What one turn of the machine gives: notices for the operator, in order,
/// and the action to perform.
#[derive(Debug)]
pub struct Turn {
    pub notices: Vec<Notice>,
    pub action: Action,
}

pub struct TurnView {
    pub notices: Seq<NoticeView>,
    pub action: ActionView,
}

impl View for Turn {
    type V = TurnView;

    open spec fn view(&self) -> TurnView {
        TurnView { notices: views(self.notices@), action: self.action@ }
    }
}

/// What the machine waits for.
#[derive(Debug, Clone, Copy, PartialEq, Eq, Structural)]
pub enum Phase {
    /// The start of the run.
    Created,
    /// The configuration to begin with.
    LoadingConfig,
    /// The progress store.
    ReadingProgress,
    /// The configuration of the iteration.
    Reloading,
    /// Whether the agent can be found.
    Locating,
    /// The end of the agent.
    RunningAgent,
    /// Whether the work tree lies in a repository.
    ProbingRepository,
    /// Whether the work tree has changes.
    ProbingChanges,
    /// The staging and the commit.
    Committing,
    /// The end of validation.
    Validating,
    /// How the progress store ends, before the record is appended to it.
    ProbingStore,
    /// The instant of the record.
    ReadingClock,
    /// The record to be appended.
    Appending,
    /// The end of a quality gate.
    RunningGates,
    /// The end of the sleep between two iterations.
    Sleeping,
    /// Nothing: the run is over.
    Finished,
}

impl Phase {
    /// The phases that belong to an iteration.
    pub open spec fn in_iteration(self) -> bool {
        !(self is Created || self is LoadingConfig || self is ReadingProgress || self is Finished)
    }

    /// The phases of an iteration in which its record is made up.
    pub open spec fn recorded(self) -> bool {
        self is ProbingStore || self is ReadingClock || self is Appending || self is RunningGates
    }
}

/// The state of a run between two turns.
#[derive(Debug)]
pub struct LoopState {
    phase: Phase,
    config: Config,
    limit: u32,
    iteration: u32,
    prompt: String,
    output: String,
    message: String,
    record: IterationResult,
    open: bool,
    executions: Vec<Execution>,
}

pub struct LoopStateView {
    pub phase: Phase,
    /// The configuration in force.
    pub config: ConfigView,
    /// The last iteration that this run may make.
    pub limit: u32,
    /// The number of the iteration under way.
    pub iteration: u32,
    /// The prompt of the iteration.
    pub prompt: Seq<char>,
    /// What the agent printed in this iteration.
    pub output: Seq<char>,
    /// The message of the commit under way.
    pub message: Seq<char>,
    /// The record of the iteration.
    pub record: IterationResultView,
    /// The last line of the progress store was open when the store was
    /// looked at for the record of the iteration.
    pub open: bool,
    /// The executions seen so far of the operation under way.
    pub executions: Seq<ExecutionView>,
}

impl View for LoopState {
    type V = LoopStateView;

    closed spec fn view(&self) -> LoopStateView {
        LoopStateView {
            phase: self.phase,
            config: self.config@,
            limit: self.limit,
            iteration: self.iteration,
            prompt: self.prompt@,
            output: self.output@,
            message: self.message@,
            record: self.record@,
            open: self.open,
            executions: views(self.executions@),
        }
    }
}

/// The summary of an iteration.
pub open spec fn summary(validation_passed: bool, promise_found: bool) -> Seq<char> {
    if validation_passed && promise_found {
        "Complete"@
    } else if validation_passed {
        "Validation passed, waiting for completion"@
    } else {
        "Validation failed"@
    }
}

/// The record of iteration `n`.
pub open spec fn record_of(n: u32, validation_passed: bool, promise_found: bool)
    -> IterationResultView {
    IterationResultView {
        iteration: n,
        validation_passed,
        promise_found,
        summary: summary(validation_passed, promise_found),
    }
}

impl LoopStateView {
    /// What holds of every state that a run passes through: an iteration
    /// under way has its number between one and the limit; a record is that
    /// of the iteration under way, with the signal looked for in what the
    /// agent printed; quality gates run only after validation passed and
    /// the signal was found; executions are kept only while a commit or
    /// the quality gates are under way, which ask for more than one command;
    /// and the limit of the run is the number of iterations configured when
    /// the run began.
    pub open spec fn wf(self) -> bool {
        &&& self.phase.in_iteration() ==> 1 <= self.iteration <= self.limit
        &&& self.phase.recorded() ==> self.record == record_of(
            self.iteration,
            self.record.validation_passed,
            contains(self.output, self.config.loop_config.completion_signal),
        )
        &&& self.phase is RunningGates ==> self.record.validation_passed
            && self.record.promise_found
        &&& !(self.phase is Committing || self.phase is RunningGates) ==> self.executions.len()
            == 0
        &&& self.phase is Committing ==> self.executions.len() <= 1
        &&& self.phase is ReadingProgress ==> self.limit
            == self.config.loop_config.max_iterations
    }

    /// The state before the run begins.
    pub open spec fn initial() -> LoopStateView {
        LoopStateView {
            phase: Phase::Created,
            config: ConfigView::standard(),
            limit: 0,
            iteration: 0,
            prompt: Seq::empty(),
            output: Seq::empty(),
            message: Seq::empty(),
            record: record_of(0, false, false),
            open: false,
            executions: Seq::empty(),
        }
    }
}

impl LoopState {
    #[verifier::type_invariant]
    spec fn inv(self) -> bool {
        self@.wf()
    }

    /// What the machine waits for.
    pub fn phase(&self) -> (p: Phase)
        ensures
            p == self@.phase,
    {
        self.phase
    }

    /// The number of the iteration under way.
    pub fn iteration(&self) -> (n: u32)
        ensures
            n == self@.iteration,
    {
        self.iteration
    }

    /// The configuration in force.
    pub fn config(&self) -> (c: &Config)
        ensures
            c@ == self@.config,
    {
        &self.config
    }

    /// Every state that the library hands out is well formed.
    pub fn well_formed(&self)
        ensures
            self@.wf(),
    {
        proof {
            use_type_invariant(self);
        }
    }

    /// Whether the run is over.
    pub fn is_finished(&self) -> (b: bool)
        ensures
            b == (self@.phase is Finished),
    {
        match self.phase {
            Phase::Finished => true,
            _ => false,
        }
    }
}

/// The places that a run works with.
#[derive(Debug)]
pub struct LoopRunner {
    work_dir: String,
    plan_path: String,
    agent: String,
    progress_path: String,
    config_path: String,
}

pub struct LoopRunnerView {
    pub work_dir: Seq<char>,
    pub plan_path: Seq<char>,
    /// The program that runs the agent.
    pub agent: Seq<char>,
    pub progress_path: Seq<char>,
    pub config_path: Seq<char>,
}

impl View for LoopRunner {
    type V = LoopRunnerView;

    closed spec fn view(&self) -> LoopRunnerView {
        LoopRunnerView {
            work_dir: self.work_dir@,
            plan_path: self.plan_path@,
            agent: self.agent@,
            progress_path: self.progress_path@,
            config_path: self.config_path@,
        }
    }
}

/// The words of the outcome when the agent is not on the search path.
pub open spec fn agent_missing(program: Seq<char>) -> Seq<char> {
    program + " CLI not found. Please install it."@
}

/// The words of the outcome when the agent cannot be started.
pub open spec fn agent_not_started(program: Seq<char>) -> Seq<char> {
    "Failed to execute "@ + program + " command"@
}

/// The command that runs the agent once on `prompt`: it prints its answer,
/// uses the configured model, takes a single turn and, where the
/// configuration says so, asks for no permission.
pub open spec fn agent_command(
    program: Seq<char>,
    dir: Seq<char>,
    llm: LlmConfigView,
    prompt: Seq<char>,
) -> CommandSpecView {
    CommandSpecView {
        program,
        args: if llm.dangerously_skip_permissions {
            seq![
                "--print"@,
                "--model"@,
                llm.model,
                "--max-turns"@,
                "1"@,
                "--dangerously-skip-permissions"@,
                prompt,
            ]
        } else {
            seq!["--print"@, "--model"@, llm.model, "--max-turns"@, "1"@, prompt]
        },
        dir,
    }
}

/// The message of the commit of iteration `n`: the template with the number
/// in the place of `{iteration}`.
pub open spec fn commit_message(template: Seq<char>, n: u32) -> Seq<char> {
    replace(template, "{iteration}"@, decimal(n as nat))
}

/// The run is over.
pub open spec fn halt(s: LoopStateView, ns: Seq<NoticeView>, action: ActionView) -> (
    LoopStateView,
    TurnView,
) {
    (
        LoopStateView { phase: Phase::Finished, executions: Seq::empty(), ..s },
        TurnView { notices: ns, action },
    )
}

/// The machine asks for `action` and waits in `phase`.
pub open spec fn ask(s: LoopStateView, phase: Phase, ns: Seq<NoticeView>, action: ActionView) -> (
    LoopStateView,
    TurnView,
) {
    (LoopStateView { phase, ..s }, TurnView { notices: ns, action })
}

/// The run ends within an iteration that cannot be carried through: with
/// the iterations made before it, and the reason.
pub open spec fn broken(s: LoopStateView, ns: Seq<NoticeView>, error: Seq<char>) -> (
    LoopStateView,
    TurnView,
) {
    halt(
        s,
        ns,
        ActionView::Finish(
            LoopOutcomeView::Error { iterations: (s.iteration - 1) as u32, error },
        ),
    )
}

/// The words of the outcome when the instant of a record cannot be written.
pub open spec fn clock_failed() -> Seq<char> {
    "Failed to write the time of the iteration"@
}

/// The words of the outcome when the record cannot be appended.
pub open spec fn store_failed(reason: Seq<char>) -> Seq<char> {
    "Failed to write to progress file: "@ + reason
}

/// Iteration `n` begins: the configuration is read again.
pub open spec fn begin(r: LoopRunnerView, s: LoopStateView, ns: Seq<NoticeView>, n: u32) -> (
    LoopStateView,
    TurnView,
) {
    ask(
        LoopStateView { iteration: n, ..s },
        Phase::Reloading,
        ns.push(NoticeView::IterationStarted { iteration: n }),
        ActionView::LoadConfig { path: r.config_path },
    )
}

/// The run takes up after `completed` recorded iterations: with the next
/// one, as long as the limit is not reached.
pub open spec fn resume(r: LoopRunnerView, s: LoopStateView, completed: u32) -> (
    LoopStateView,
    TurnView,
) {
    let ns = seq![NoticeView::Resumed { completed, limit: s.limit }];
    if completed < s.limit {
        begin(r, s, ns, (completed + 1) as u32)
    } else {
        halt(
            s,
            ns,
            ActionView::Finish(
                LoopOutcomeView::MaxIterations {
                    iterations: s.config.loop_config.max_iterations,
                },
            ),
        )
    }
}

/// The next iteration, or the end of the run at the limit.
pub open spec fn advance(r: LoopRunnerView, s: LoopStateView, ns: Seq<NoticeView>) -> (
    LoopStateView,
    TurnView,
) {
    if s.iteration < s.limit {
        begin(r, s, ns, (s.iteration + 1) as u32)
    } else {
        halt(
            s,
            ns,
            ActionView::Finish(
                LoopOutcomeView::MaxIterations {
                    iterations: s.config.loop_config.max_iterations,
                },
            ),
        )
    }
}

/// The end of an iteration that did not complete the run: a sleep, unless
/// the configured number of iterations is reached.
pub open spec fn wrap_up(r: LoopRunnerView, s: LoopStateView, ns: Seq<NoticeView>) -> (
    LoopStateView,
    TurnView,
) {
    if s.iteration < s.config.loop_config.max_iterations {
        ask(
            s,
            Phase::Sleeping,
            ns,
            ActionView::Sleep { secs: s.config.loop_config.sleep_between_secs },
        )
    } else {
        advance(r, s, ns)
    }
}

/// The quality gates, as far as the executions seen allow. They complete
/// the run where all pass. Where they break off, the loop goes on as after
/// a failed gate.
pub open spec fn gates_step(r: LoopRunnerView, s: LoopStateView, ns: Seq<NoticeView>) -> (
    LoopStateView,
    TurnView,
) {
    match quality_gates(r.work_dir, s.config.quality_gates, s.executions) {
        Err(e) => wrap_up(
            r,
            LoopStateView { executions: Seq::empty(), ..s },
            ns.push(NoticeView::GatesAborted { error: e.message() }),
        ),
        Ok(StepView::Run(c)) => ask(s, Phase::RunningGates, ns, ActionView::Execute(c)),
        Ok(StepView::Done(g)) => if g.all_passed {
            halt(
                s,
                ns.push(NoticeView::GatesFinished { result: g }),
                ActionView::Finish(LoopOutcomeView::Complete { iterations: s.iteration }),
            )
        } else {
            wrap_up(
                r,
                LoopStateView { executions: Seq::empty(), ..s },
                ns.push(NoticeView::GatesFinished { result: g }).push(NoticeView::GatesFailed),
            )
        },
    }
}

/// The record was appended, or could not be. A record that cannot be
/// appended ends the run, since the next run could not tell that the
/// iteration was made. It ends with the outcome of an error and the
/// iterations made before, not by breaking off: once the loop has begun, a
/// run ends with one of its named outcomes, and only what fails before the
/// first iteration is handed up without one. The quality gates follow if and only if validation
/// passed and the signal was found.
pub open spec fn appended(r: LoopRunnerView, s: LoopStateView, error: Option<Seq<char>>) -> (
    LoopStateView,
    TurnView,
) {
    match error {
        Some(reason) => broken(s, Seq::empty(), store_failed(reason)),
        None => {
            let ns = seq![NoticeView::IterationLogged { record: s.record }];
            if s.record.validation_passed && s.record.promise_found {
                gates_step(
                    r,
                    LoopStateView { executions: Seq::empty(), ..s },
                    ns.push(NoticeView::GatesStarting),
                )
            } else {
                wrap_up(r, s, ns)
            }
        },
    }
}

/// The instant of the record was written as `stamp`, or could not be: the
/// record is to be appended, on a line of its own. A stamp that holds the
/// marker of a record
/// would be counted as a record of its own; it counts as an instant that
/// cannot be written.
pub open spec fn stamped(r: LoopRunnerView, s: LoopStateView, stamp: Option<Seq<char>>) -> (
    LoopStateView,
    TurnView,
) {
    match stamp {
        None => broken(s, Seq::empty(), clock_failed()),
        Some(t) => if contains(t, MARKER@) {
            broken(s, Seq::empty(), clock_failed())
        } else {
            ask(
                s,
                Phase::Appending,
                Seq::empty(),
                ActionView::Append {
                    path: r.progress_path,
                    text: record_text(s.open, s.record, t),
                },
            )
        },
    }
}

/// Validation passed, or not: the record is made up, and the progress
/// store is read to see how it ends before the record is appended to it.
pub open spec fn judged(r: LoopRunnerView, s: LoopStateView, ns: Seq<NoticeView>, passed: bool)
    -> (LoopStateView, TurnView) {
    ask(
        LoopStateView {
            record: record_of(
                s.iteration,
                passed,
                contains(s.output, s.config.loop_config.completion_signal),
            ),
            executions: Seq::empty(),
            ..s
        },
        Phase::ProbingStore,
        ns,
        ActionView::ReadProgress { path: r.progress_path },
    )
}

/// The last line of a store as the driver found it is open.
pub open spec fn left_open(read: StoreReadView) -> bool {
    match read {
        StoreReadView::Text(t) => !tidy(t),
        _ => false,
    }
}

/// The store was read before the record is appended: the clock is read
/// next. A store that cannot be read cannot be appended to, which ends the
/// run like a record that cannot be appended.
pub open spec fn store_probed(r: LoopRunnerView, s: LoopStateView, read: StoreReadView) -> (
    LoopStateView,
    TurnView,
) {
    match read {
        StoreReadView::Unreadable { reason } => broken(s, Seq::empty(), store_failed(reason)),
        _ => ask(
            LoopStateView { open: left_open(read), ..s },
            Phase::ReadingClock,
            Seq::empty(),
            ActionView::ReadClock,
        ),
    }
}

/// What the machine asks to append for the record `record`, written at
/// `stamp`: the record, behind a line feed where the last line of the
/// store was open, so that the record begins a line of its own.
pub open spec fn record_text(open: bool, record: IterationResultView, stamp: Seq<char>) -> Seq<
    char,
> {
    if open {
        seq!['\n'] + entry(record, stamp)
    } else {
        entry(record, stamp)
    }
}

/// Validation, as far as the executions seen allow. Its verdict and the
/// search for the signal in what the agent printed make the record. A
/// validation command that cannot be started has not passed.
pub open spec fn validate_step(r: LoopRunnerView, s: LoopStateView, ns: Seq<NoticeView>) -> (
    LoopStateView,
    TurnView,
) {
    match validation(r.work_dir, s.config.validation.command, s.executions) {
        Err(e) => judged(
            r,
            s,
            ns.push(NoticeView::ValidationNotRun { error: e.message() }),
            false,
        ),
        Ok(StepView::Run(c)) => ask(s, Phase::Validating, ns, ActionView::Execute(c)),
        Ok(StepView::Done(v)) => judged(r, s, ns, v.passed),
    }
}

/// Version control failed: the iteration goes on without a commit.
pub open spec fn uncommitted(
    r: LoopRunnerView,
    s: LoopStateView,
    ns: Seq<NoticeView>,
    e: GitErrorView,
) -> (LoopStateView, TurnView) {
    validate_step(
        r,
        LoopStateView { executions: Seq::empty(), ..s },
        ns.push(NoticeView::CommitSkipped { error: e.message() }),
    )
}

/// The commit, as far as the executions seen allow.
pub open spec fn commit_step(r: LoopRunnerView, s: LoopStateView, ns: Seq<NoticeView>) -> (
    LoopStateView,
    TurnView,
) {
    match commit(r.work_dir, s.message, s.executions) {
        Err(e) => uncommitted(r, s, ns, e),
        Ok(StepView::Run(c)) => ask(s, Phase::Committing, ns, ActionView::Execute(c)),
        Ok(StepView::Done(_)) => validate_step(
            r,
            LoopStateView { executions: Seq::empty(), ..s },
            ns.push(NoticeView::Committed { message: s.message }),
        ),
    }
}

/// The search for changes, as far as the executions seen allow. Without
/// changes nothing is committed.
pub open spec fn changes_step(r: LoopRunnerView, s: LoopStateView, ns: Seq<NoticeView>) -> (
    LoopStateView,
    TurnView,
) {
    match changes(r.work_dir, s.executions) {
        Err(e) => uncommitted(r, s, ns, e),
        Ok(StepView::Run(c)) => ask(s, Phase::ProbingChanges, ns, ActionView::Execute(c)),
        Ok(StepView::Done(changed)) => if changed {
            commit_step(
                r,
                LoopStateView {
                    message: commit_message(s.config.git.commit_message_template, s.iteration),
                    executions: Seq::empty(),
                    ..s
                },
                ns,
            )
        } else {
            validate_step(r, LoopStateView { executions: Seq::empty(), ..s }, ns)
        },
    }
}

/// The search for a repository, as far as the executions seen allow.
/// Outside a repository nothing is committed.
pub open spec fn repository_step(r: LoopRunnerView, s: LoopStateView, ns: Seq<NoticeView>) -> (
    LoopStateView,
    TurnView,
) {
    match repository(r.work_dir, s.executions) {
        StepView::Run(c) => ask(s, Phase::ProbingRepository, ns, ActionView::Execute(c)),
        StepView::Done(inside) => if inside {
            changes_step(r, LoopStateView { executions: Seq::empty(), ..s }, ns)
        } else {
            validate_step(r, LoopStateView { executions: Seq::empty(), ..s }, ns)
        },
    }
}

/// The agent ended, or could not be started. That it cannot be started ends
/// the run, without a record; how it ended does not matter.
pub open spec fn agent_done(r: LoopRunnerView, s: LoopStateView, e: ExecutionView) -> (
    LoopStateView,
    TurnView,
) {
    match e {
        ExecutionView::NotStarted { .. } => broken(s, Seq::empty(), agent_not_started(r.agent)),
        ExecutionView::Finished(o) => {
            let ns = if !o.success() && o.stderr.len() > 0 {
                seq![NoticeView::AgentComplained { stderr: o.stderr }]
            } else {
                Seq::empty()
            };
            let s1 = LoopStateView { output: o.combined(), executions: Seq::empty(), ..s };
            if s.config.git.auto_commit {
                repository_step(r, s1, ns)
            } else {
                validate_step(r, s1, ns)
            }
        },
    }
}

/// The agent was looked for. That it is not found ends the run.
pub open spec fn located(r: LoopRunnerView, s: LoopStateView, found: bool) -> (
    LoopStateView,
    TurnView,
) {
    if found {
        ask(
            s,
            Phase::RunningAgent,
            Seq::empty(),
            ActionView::Execute(agent_command(r.agent, r.work_dir, s.config.llm, s.prompt)),
        )
    } else {
        broken(s, Seq::empty(), agent_missing(r.agent))
    }
}

/// The configuration of the iteration: what the file holds, or, where it
/// holds none, what was in force before.
pub open spec fn refreshed(before: ConfigView, file: ConfigFileView) -> ConfigView {
    match file {
        ConfigFileView::Parsed(c) => c,
        _ => before,
    }
}

/// The configuration was read again and the prompt rendered as `p`, or not:
/// the agent is looked for. Without a prompt the agent cannot be run, which
/// ends the run.
pub open spec fn reloaded(
    r: LoopRunnerView,
    s: LoopStateView,
    file: ConfigFileView,
    p: Result<Seq<char>, PromptErrorView>,
) -> (LoopStateView, TurnView) {
    let s1 = LoopStateView { config: refreshed(s.config, file), ..s };
    match p {
        Err(e) => broken(s1, Seq::empty(), e.message()),
        Ok(text) => ask(
            LoopStateView { prompt: text, ..s1 },
            Phase::Locating,
            seq![NoticeView::AgentStarting { iteration: s.iteration }],
            ActionView::Locate { program: r.agent },
        ),
    }
}

/// The number of records that a reading of the store shows.
pub open spec fn recorded(read: StoreReadView) -> u32 {
    match read {
        StoreReadView::Text(t) => records(Some(t)),
        _ => 0,
    }
}

/// One turn of the machine: the state after the event `e` came in state
/// `s`, the notices, and the next action. An event that was not asked for
/// ends the run.
pub open spec fn transition(r: LoopRunnerView, s: LoopStateView, e: EventView) -> (
    LoopStateView,
    TurnView,
) {
    match (s.phase, e) {
        (Phase::Created, EventView::Start) => ask(
            s,
            Phase::LoadingConfig,
            Seq::empty(),
            ActionView::LoadConfig { path: r.config_path },
        ),
        (Phase::LoadingConfig, EventView::Config(file)) => match required(file) {
            Err(e) => halt(s, Seq::empty(), ActionView::Fail(RunErrorView::Config(e))),
            Ok(c) => ask(
                LoopStateView { config: c, limit: c.loop_config.max_iterations, ..s },
                Phase::ReadingProgress,
                Seq::empty(),
                ActionView::ReadProgress { path: r.progress_path },
            ),
        },
        (Phase::ReadingProgress, EventView::Store(read)) => match read {
            StoreReadView::Unreadable { reason } => halt(
                s,
                Seq::empty(),
                ActionView::Fail(RunErrorView::Progress { reason }),
            ),
            _ => resume(r, s, recorded(read)),
        },
        (Phase::Reloading, EventView::Config(file)) => reloaded(
            r,
            s,
            file,
            prompt(refreshed(s.config, file).loop_config.completion_signal, r.plan_path),
        ),
        (Phase::Locating, EventView::Located(found)) => located(r, s, found),
        (Phase::RunningAgent, EventView::Executed(x)) => agent_done(r, s, x),
        (Phase::ProbingRepository, EventView::Executed(x)) => repository_step(
            r,
            LoopStateView { executions: s.executions.push(x), ..s },
            Seq::empty(),
        ),
        (Phase::ProbingChanges, EventView::Executed(x)) => changes_step(
            r,
            LoopStateView { executions: s.executions.push(x), ..s },
            Seq::empty(),
        ),
        (Phase::Committing, EventView::Executed(x)) => commit_step(
            r,
            LoopStateView { executions: s.executions.push(x), ..s },
            Seq::empty(),
        ),
        (Phase::Validating, EventView::Executed(x)) => validate_step(
            r,
            LoopStateView { executions: s.executions.push(x), ..s },
            Seq::empty(),
        ),
        (Phase::ProbingStore, EventView::Store(read)) => store_probed(r, s, read),
        (Phase::ReadingClock, EventView::Clock(t)) => stamped(r, s, t.stamp()),
        (Phase::Appending, EventView::Written { error }) => appended(r, s, error),
        (Phase::RunningGates, EventView::Executed(x)) => gates_step(
            r,
            LoopStateView { executions: s.executions.push(x), ..s },
            Seq::empty(),
        ),
        (Phase::Sleeping, EventView::Slept) => advance(r, s, Seq::empty()),
        _ => halt(s, Seq::empty(), ActionView::Fail(RunErrorView::Protocol)),
    }
}

/// The notices `ns` and after them `n`.
fn note(ns: Vec<Notice>, n: Notice) -> (r: Vec<Notice>)
    ensures
        views(r@) == views(ns@).push(n@),
{
    let mut r = ns;
    proof {
        lemma_views_push(r@, n);
    }
    r.push(n);
    r
}

/// No notices.
fn quiet() -> (r: Vec<Notice>)
    ensures
        views(r@) == Seq::<NoticeView>::empty(),
{
    let r: Vec<Notice> = Vec::new();
    assert(views(r@) =~= Seq::<NoticeView>::empty());
    r
}

/// No executions.
fn fresh() -> (r: Vec<Execution>)
    ensures
        views(r@) == Seq::<ExecutionView>::empty(),
{
    let r: Vec<Execution> = Vec::new();
    assert(views(r@) =~= Seq::<ExecutionView>::empty());
    r
}

/// The executions `v` and after them `x`.
fn seen(v: Vec<Execution>, x: Execution) -> (r: Vec<Execution>)
    ensures
        views(r@) == views(v@).push(x@),
{
    let mut r = v;
    proof {
        lemma_views_push(r@, x);
    }
    r.push(x);
    r
}

/// The summary of an iteration.
pub fn summarize(validation_passed: bool, promise_found: bool) -> (r: String)
    ensures
        r@ == summary(validation_passed, promise_found),
{
    if validation_passed && promise_found {
        "Complete".to_string()
    } else if validation_passed {
        "Validation passed, waiting for completion".to_string()
    } else {
        "Validation failed".to_string()
    }
}

/// The command that runs the agent once on `prompt`.
pub fn agent(program: &str, dir: &str, llm: &LlmConfig, prompt: &str) -> (c: CommandSpec)
    ensures
        c@ == agent_command(program@, dir@, llm@, prompt@),
{
    let mut args: Vec<String> = Vec::new();
    args.push("--print".to_string());
    args.push("--model".to_string());
    args.push(llm.model.clone());
    args.push("--max-turns".to_string());
    args.push("1".to_string());
    if llm.dangerously_skip_permissions {
        args.push("--dangerously-skip-permissions".to_string());
    }
    args.push(prompt.to_string());
    assert(views(args@) =~= agent_command(program@, dir@, llm@, prompt@).args);
    command(program, args, dir)
}

/// The message of the commit of iteration `n`.
pub fn render_commit_message(template: &str, n: u32) -> (r: String)
    ensures
        r@ == commit_message(template@, n),
{
    replace_all(template, "{iteration}", to_decimal(n as u64).as_str())
}

impl LoopRunner {
    /// A run in `work_dir` that follows the plan at `plan_path`, with the
    /// program `agent` as the agent.
    pub fn new(work_dir: &str, plan_path: &str, agent: &str) -> (r: Self)
        ensures
            r@ == (LoopRunnerView {
                work_dir: work_dir@,
                plan_path: plan_path@,
                agent: agent@,
                progress_path: joined(joined(work_dir@, ".rwl"@), "progress.txt"@),
                config_path: joined(joined(work_dir@, ".rwl"@), "rwl.yml"@),
            }),
    {
        let dir = Config::local_config_dir(work_dir);
        LoopRunner {
            work_dir: work_dir.to_string(),
            plan_path: plan_path.to_string(),
            agent: agent.to_string(),
            progress_path: join(dir.as_str(), "progress.txt"),
            config_path: Config::local_config_path(work_dir),
        }
    }

    /// The state before the run begins.
    pub fn start(&self) -> (s: LoopState)
        ensures
            s@ == LoopStateView::initial(),
            s@.wf(),
    {
        LoopState {
            phase: Phase::Created,
            config: Config::default(),
            limit: 0,
            iteration: 0,
            prompt: String::new(),
            output: String::new(),
            message: String::new(),
            record: IterationResult {
                iteration: 0,
                validation_passed: false,
                promise_found: false,
                summary: summarize(false, false),
            },
            open: false,
            executions: fresh(),
        }
    }

    fn stop(&self, s: LoopState, ns: Vec<Notice>, action: Action) -> (res: (LoopState, Turn))
        ensures
            (res.0@, res.1@) == halt(s@, views(ns@), action@),
    {
        (LoopState { phase: Phase::Finished, executions: fresh(), ..s }, Turn { notices: ns, action })
    }

    fn fail(&self, s: LoopState, ns: Vec<Notice>, error: String) -> (res: (LoopState, Turn))
        requires
            s@.phase.in_iteration(),
        ensures
            (res.0@, res.1@) == broken(s@, views(ns@), error@),
    {
        proof {
            use_type_invariant(&s);
        }
        let iterations = s.iteration - 1;
        self.stop(s, ns, Action::Finish(LoopOutcome::Error { iterations, error }))
    }

    fn wait(&self, s: LoopState, phase: Phase, ns: Vec<Notice>, action: Action) -> (res: (
        LoopState,
        Turn,
    ))
        requires
            (LoopStateView { phase, ..s@ }).wf(),
        ensures
            (res.0@, res.1@) == ask(s@, phase, views(ns@), action@),
    {
        (LoopState { phase, ..s }, Turn { notices: ns, action })
    }

    /// Waits in `phase` for the outcome of the command `c`, with the
    /// executions `ex` seen so far of the operation under way.
    fn hold(&self, s: LoopState, ex: Vec<Execution>, phase: Phase, ns: Vec<Notice>, c: CommandSpec)
        -> (res: (LoopState, Turn))
        requires
            (LoopStateView { phase, executions: views(ex@), ..s@ }).wf(),
        ensures
            (res.0@, res.1@) == ask(
                LoopStateView { executions: views(ex@), ..s@ },
                phase,
                views(ns@),
                ActionView::Execute(c@),
            ),
    {
        (LoopState { phase, executions: ex, ..s }, Turn { notices: ns, action: Action::Execute(c) })
    }

    fn begin_iteration(&self, s: LoopState, ns: Vec<Notice>, n: u32) -> (res: (LoopState, Turn))
        requires
            1 <= n <= s@.limit,
            s@.executions.len() == 0,
        ensures
            (res.0@, res.1@) == begin(self@, s@, views(ns@), n),
    {
        let ns = note(ns, Notice::IterationStarted { iteration: n });
        let s = LoopState { phase: Phase::Reloading, iteration: n, ..s };
        (s, Turn { notices: ns, action: Action::LoadConfig { path: self.config_path.clone() } })
    }

    fn over(&self, s: LoopState, ns: Vec<Notice>) -> (res: (LoopState, Turn))
        ensures
            (res.0@, res.1@) == halt(
                s@,
                views(ns@),
                ActionView::Finish(
                    LoopOutcomeView::MaxIterations {
                        iterations: s@.config.loop_config.max_iterations,
                    },
                ),
            ),
    {
        let iterations = s.config.loop_config.max_iterations;
        self.stop(s, ns, Action::Finish(LoopOutcome::MaxIterations { iterations }))
    }

    fn resume_after(&self, s: LoopState, completed: u32) -> (res: (LoopState, Turn))
        requires
            s@.executions.len() == 0,
        ensures
            (res.0@, res.1@) == resume(self@, s@, completed),
    {
        let ns = note(quiet(), Notice::Resumed { completed, limit: s.limit });
        assert(views(ns@) =~= seq![NoticeView::Resumed { completed, limit: s@.limit }]);
        if completed < s.limit {
            self.begin_iteration(s, ns, completed + 1)
        } else {
            self.over(s, ns)
        }
    }

    fn next_iteration(&self, s: LoopState, ns: Vec<Notice>) -> (res: (LoopState, Turn))
        requires
            s@.executions.len() == 0,
        ensures
            (res.0@, res.1@) == advance(self@, s@, views(ns@)),
    {
        if s.iteration < s.limit {
            let n = s.iteration + 1;
            self.begin_iteration(s, ns, n)
        } else {
            self.over(s, ns)
        }
    }

    fn end_iteration(&self, s: LoopState, ns: Vec<Notice>) -> (res: (LoopState, Turn))
        requires
            s@.phase.in_iteration(),
            s@.executions.len() == 0,
        ensures
            (res.0@, res.1@) == wrap_up(self@, s@, views(ns@)),
    {
        proof {
            use_type_invariant(&s);
        }
        if s.iteration < s.config.loop_config.max_iterations {
            let secs = s.config.loop_config.sleep_between_secs;
            self.wait(s, Phase::Sleeping, ns, Action::Sleep { secs })
        } else {
            self.next_iteration(s, ns)
        }
    }

    fn run_gates(&self, s: LoopState, ex: Vec<Execution>, ns: Vec<Notice>) -> (res: (
        LoopState,
        Turn,
    ))
        requires
            s@.phase.in_iteration(),
            s@.record.validation_passed && s@.record.promise_found,
            s@.record == record_of(
                s@.iteration,
                s@.record.validation_passed,
                contains(s@.output, s@.config.loop_config.completion_signal),
            ),
            s@.executions.len() == 0,
        ensures
            (res.0@, res.1@) == gates_step(
                self@,
                LoopStateView { executions: views(ex@), ..s@ },
                views(ns@),
            ),
    {
        let runner = ValidationRunner::new(self.work_dir.as_str());
        proof {
            use_type_invariant(&s);
            assert(s@.executions =~= Seq::empty());
        }
        match runner.run_quality_gates(&s.config.quality_gates, &ex) {
            Err(e) => {
                let ns = note(ns, Notice::GatesAborted { error: e.message() });
                self.end_iteration(s, ns)
            },
            Ok(Step::Run(c)) => self.hold(s, ex, Phase::RunningGates, ns, c),
            Ok(Step::Done(g)) => {
                let passed = g.all_passed;
                let ns = note(ns, Notice::GatesFinished { result: g });
                if passed {
                    let iterations = s.iteration;
                    self.stop(s, ns, Action::Finish(LoopOutcome::Complete { iterations }))
                } else {
                    let ns = note(ns, Notice::GatesFailed);
                    self.end_iteration(s, ns)
                }
            },
        }
    }

    fn on_written(&self, s: LoopState, error: Option<String>) -> (res: (LoopState, Turn))
        requires
            s@.phase is Appending,
        ensures
            (res.0@, res.1@) == appended(self@, s@, crate::config::text_of(error)),
    {
        proof {
            use_type_invariant(&s);
        }
        match error {
            Some(reason) => {
                let mut error = "Failed to write to progress file: ".to_string();
                error.append(reason.as_str());
                self.fail(s, quiet(), error)
            },
            None => {
                let ns = note(quiet(), Notice::IterationLogged { record: s.record.clone() });
                assert(views(ns@) =~= seq![NoticeView::IterationLogged { record: s@.record }]);
                if s.record.validation_passed && s.record.promise_found {
                    let ns = note(ns, Notice::GatesStarting);
                    let s = LoopState { executions: fresh(), ..s };
                    self.run_gates(s, fresh(), ns)
                } else {
                    self.end_iteration(s, ns)
                }
            },
        }
    }

    fn on_store(&self, s: LoopState, read: StoreRead) -> (res: (LoopState, Turn))
        requires
            s@.phase is ProbingStore,
        ensures
            (res.0@, res.1@) == store_probed(self@, s@, read@),
    {
        proof {
            use_type_invariant(&s);
        }
        match read {
            StoreRead::Unreadable { reason } => {
                let mut error = "Failed to write to progress file: ".to_string();
                error.append(reason.as_str());
                self.fail(s, quiet(), error)
            },
            StoreRead::Absent => {
                let s = LoopState { phase: Phase::ReadingClock, open: false, ..s };
                (s, Turn { notices: quiet(), action: Action::ReadClock })
            },
            StoreRead::Text(t) => {
                let open = !is_tidy(t.as_str());
                let s = LoopState { phase: Phase::ReadingClock, open, ..s };
                (s, Turn { notices: quiet(), action: Action::ReadClock })
            },
        }
    }

    /// The turn after the clock was read, with the instant written as
    /// `stamp`, or not written. A state that does not wait for the clock
    /// ends the run.
    pub fn stamp_with(&self, s: LoopState, stamp: Option<String>) -> (res: (LoopState, Turn))
        ensures
            (res.0@, res.1@) == (if s@.phase is ReadingClock {
                stamped(self@, s@, crate::config::text_of(stamp))
            } else {
                halt(s@, Seq::empty(), ActionView::Fail(RunErrorView::Protocol))
            }),
    {
        proof {
            use_type_invariant(&s);
        }
        match s.phase {
            Phase::ReadingClock => match stamp {
                None => self.fail(
                    s,
                    quiet(),
                    "Failed to write the time of the iteration".to_string(),
                ),
                Some(t) => {
                    if find(t.as_str(), MARKER) {
                        self.fail(
                            s,
                            quiet(),
                            "Failed to write the time of the iteration".to_string(),
                        )
                    } else {
                        let mut text = String::new();
                        if s.open {
                            text.push('\n');
                        }
                        text.append(render_entry(&s.record, t.as_str()).as_str());
                        assert(text@ =~= record_text(s@.open, s@.record, t@));
                        let path = self.progress_path.clone();
                        self.wait(s, Phase::Appending, quiet(), Action::Append { path, text })
                    }
                },
            },
            _ => self.stop(s, quiet(), Action::Fail(RunError::Protocol)),
        }
    }

    fn validate(&self, s: LoopState, ex: Vec<Execution>, ns: Vec<Notice>) -> (res: (
        LoopState,
        Turn,
    ))
        requires
            s@.phase.in_iteration(),
            s@.executions.len() == 0,
        ensures
            (res.0@, res.1@) == validate_step(
                self@,
                LoopStateView { executions: views(ex@), ..s@ },
                views(ns@),
            ),
    {
        proof {
            use_type_invariant(&s);
        }
        let runner = ValidationRunner::new(self.work_dir.as_str());
        assert(s@.executions =~= Seq::empty());
        match runner.run_validation(s.config.validation.command.as_str(), &ex) {
            Err(e) => {
                let ns = note(ns, Notice::ValidationNotRun { error: e.message() });
                self.judge(s, ns, false)
            },
            Ok(Step::Run(c)) => self.hold(s, ex, Phase::Validating, ns, c),
            Ok(Step::Done(v)) => self.judge(s, ns, v.passed),
        }
    }

    fn judge(&self, s: LoopState, ns: Vec<Notice>, passed: bool) -> (res: (LoopState, Turn))
        requires
            s@.phase.in_iteration(),
        ensures
            (res.0@, res.1@) == judged(self@, s@, views(ns@), passed),
    {
        proof {
            use_type_invariant(&s);
        }
        let found = find(s.output.as_str(), s.config.loop_config.completion_signal.as_str());
        let record = IterationResult {
            iteration: s.iteration,
            validation_passed: passed,
            promise_found: found,
            summary: summarize(passed, found),
        };
        let s = LoopState { phase: Phase::ProbingStore, record, executions: fresh(), ..s };
        let path = self.progress_path.clone();
        (s, Turn { notices: ns, action: Action::ReadProgress { path } })
    }

    fn skip_commit(&self, s: LoopState, ns: Vec<Notice>, e: GitError) -> (res: (LoopState, Turn))
        requires
            s@.phase.in_iteration(),
        ensures
            (res.0@, res.1@) == uncommitted(self@, s@, views(ns@), e@),
    {
        proof {
            use_type_invariant(&s);
        }
        let ns = note(ns, Notice::CommitSkipped { error: e.message() });
        let s = LoopState { executions: fresh(), ..s };
        self.validate(s, fresh(), ns)
    }

    fn commit_changes(&self, s: LoopState, ex: Vec<Execution>, ns: Vec<Notice>) -> (res: (
        LoopState,
        Turn,
    ))
        requires
            s@.phase.in_iteration(),
            s@.executions.len() == 0,
        ensures
            (res.0@, res.1@) == commit_step(
                self@,
                LoopStateView { executions: views(ex@), ..s@ },
                views(ns@),
            ),
    {
        proof {
            use_type_invariant(&s);
        }
        let git = GitManager::new(self.work_dir.as_str());
        assert(s@.executions =~= Seq::empty());
        match git.auto_commit(s.message.as_str(), &ex) {
            Err(e) => self.skip_commit(s, ns, e),
            Ok(Step::Run(c)) => self.hold(s, ex, Phase::Committing, ns, c),
            Ok(Step::Done(_)) => {
                let ns = note(ns, Notice::Committed { message: s.message.clone() });
                let s = LoopState { executions: fresh(), ..s };
                self.validate(s, fresh(), ns)
            },
        }
    }

    fn probe_changes(&self, s: LoopState, ex: Vec<Execution>, ns: Vec<Notice>) -> (res: (
        LoopState,
        Turn,
    ))
        requires
            s@.phase.in_iteration(),
            s@.executions.len() == 0,
        ensures
            (res.0@, res.1@) == changes_step(
                self@,
                LoopStateView { executions: views(ex@), ..s@ },
                views(ns@),
            ),
    {
        proof {
            use_type_invariant(&s);
        }
        let git = GitManager::new(self.work_dir.as_str());
        assert(s@.executions =~= Seq::empty());
        match git.has_changes(&ex) {
            Err(e) => self.skip_commit(s, ns, e),
            Ok(Step::Run(c)) => self.hold(s, ex, Phase::ProbingChanges, ns, c),
            Ok(Step::Done(changed)) => {
                if changed {
                    let message = render_commit_message(
                        s.config.git.commit_message_template.as_str(),
                        s.iteration,
                    );
                    let s = LoopState { message, executions: fresh(), ..s };
                    self.commit_changes(s, fresh(), ns)
                } else {
                    let s = LoopState { executions: fresh(), ..s };
                    self.validate(s, fresh(), ns)
                }
            },
        }
    }

    fn probe_repository(&self, s: LoopState, ex: Vec<Execution>, ns: Vec<Notice>) -> (res: (
        LoopState,
        Turn,
    ))
        requires
            s@.phase.in_iteration(),
            s@.executions.len() == 0,
        ensures
            (res.0@, res.1@) == repository_step(
                self@,
                LoopStateView { executions: views(ex@), ..s@ },
                views(ns@),
            ),
    {
        proof {
            use_type_invariant(&s);
        }
        let git = GitManager::new(self.work_dir.as_str());
        assert(s@.executions =~= Seq::empty());
        match git.is_repo(&ex) {
            Step::Run(c) => self.hold(s, ex, Phase::ProbingRepository, ns, c),
            Step::Done(inside) => {
                let s = LoopState { executions: fresh(), ..s };
                if inside {
                    self.probe_changes(s, fresh(), ns)
                } else {
                    self.validate(s, fresh(), ns)
                }
            },
        }
    }

    fn on_agent(&self, s: LoopState, x: Execution) -> (res: (LoopState, Turn))
        requires
            s@.phase is RunningAgent,
        ensures
            (res.0@, res.1@) == agent_done(self@, s@, x@),
    {
        proof {
            use_type_invariant(&s);
        }
        match x {
            Execution::NotStarted { reason } => {
                let mut error = "Failed to execute ".to_string();
                error.append(self.agent.as_str());
                error.append(" command");
                self.fail(s, quiet(), error)
            },
            Execution::Finished(o) => {
                let ns = if !o.success() && !o.stderr.as_str().is_empty() {
                    let ns = note(quiet(), Notice::AgentComplained { stderr: o.stderr.clone() });
                    assert(views(ns@) =~= seq![NoticeView::AgentComplained { stderr: o@.stderr }]);
                    ns
                } else {
                    quiet()
                };
                let commits = s.config.git.auto_commit;
                let s = LoopState { output: o.combined(), executions: fresh(), ..s };
                if commits {
                    self.probe_repository(s, fresh(), ns)
                } else {
                    self.validate(s, fresh(), ns)
                }
            },
        }
    }

    fn on_located(&self, s: LoopState, found: bool) -> (res: (LoopState, Turn))
        requires
            s@.phase is Locating,
        ensures
            (res.0@, res.1@) == located(self@, s@, found),
    {
        proof {
            use_type_invariant(&s);
        }
        if found {
            let c = agent(
                self.agent.as_str(),
                self.work_dir.as_str(),
                &s.config.llm,
                s.prompt.as_str(),
            );
            self.wait(s, Phase::RunningAgent, quiet(), Action::Execute(c))
        } else {
            let mut error = self.agent.clone();
            error.append(" CLI not found. Please install it.");
            self.fail(s, quiet(), error)
        }
    }

    /// The executions seen of the operation under way, with one more, and
    /// the state without them.
    fn seeing(s: LoopState, x: Execution) -> (r: (LoopState, Vec<Execution>))
        ensures
            r.0@ == (LoopStateView { executions: Seq::empty(), ..s@ }),
            views(r.1@) == s@.executions.push(x@),
    {
        proof {
            use_type_invariant(&s);
        }
        let LoopState {
            phase,
            config,
            limit,
            iteration,
            prompt,
            output,
            message,
            record,
            open,
            executions,
        } = s;
        (
            LoopState {
                phase,
                config,
                limit,
                iteration,
                prompt,
                output,
                message,
                record,
                open,
                executions: fresh(),
            },
            seen(executions, x),
        )
    }

    /// The configuration of the iteration.
    fn refresh(before: Config, file: ConfigFile) -> (c: Config)
        ensures
            c@ == refreshed(before@, file@),
    {
        match file {
            ConfigFile::Parsed(c) => c,
            _ => before,
        }
    }

    /// The turn after the configuration was read again, with the prompt
    /// rendered as `p`, or not rendered. A state that does not wait for the
    /// configuration of an iteration ends the run.
    pub fn reload_with(&self, s: LoopState, file: ConfigFile, p: Result<String, PromptError>) -> (res:
        (LoopState, Turn))
        ensures
            (res.0@, res.1@) == (if s@.phase is Reloading {
                reloaded(self@, s@, file@, rendering(p))
            } else {
                halt(s@, Seq::empty(), ActionView::Fail(RunErrorView::Protocol))
            }),
    {
        proof {
            use_type_invariant(&s);
        }
        match s.phase {
            Phase::Reloading => {
                let n = s.iteration;
                let LoopState {
                    phase,
                    config,
                    limit,
                    iteration,
                    prompt,
                    output,
                    message,
                    record,
                    open,
                    executions,
                } = s;
                let config = Self::refresh(config, file);
                match p {
                    Err(e) => {
                        let s = LoopState {
                            phase: Phase::Reloading,
                            config,
                            limit,
                            iteration,
                            prompt,
                            output,
                            message,
                            record,
                            open,
                            executions,
                        };
                        self.fail(s, quiet(), e.message())
                    },
                    Ok(text) => {
                        let ns = note(quiet(), Notice::AgentStarting { iteration: n });
                        assert(views(ns@) =~= seq![NoticeView::AgentStarting { iteration: n }]);
                        let s = LoopState {
                            phase: Phase::Locating,
                            config,
                            limit,
                            iteration,
                            prompt: text,
                            output,
                            message,
                            record,
                            open,
                            executions,
                        };
                        (
                            s,
                            Turn {
                                notices: ns,
                                action: Action::Locate { program: self.agent.clone() },
                            },
                        )
                    },
                }
            },
            _ => self.stop(s, quiet(), Action::Fail(RunError::Protocol)),
        }
    }

    /// The signal that the configuration of the iteration asks for.
    fn signal_after(before: &Config, file: &ConfigFile) -> (r: String)
        ensures
            r@ == refreshed(before@, file@).loop_config.completion_signal,
    {
        match file {
            ConfigFile::Parsed(c) => c.loop_config.completion_signal.clone(),
            _ => before.loop_config.completion_signal.clone(),
        }
    }

    /// One turn of the machine.
    pub fn run(&self, state: LoopState, event: Event) -> (res: (LoopState, Turn))
        ensures
            (res.0@, res.1@) == transition(self@, state@, event@),
            state@.wf(),
            res.0@.wf(),
    {
        state.well_formed();
        let res = self.turn(state, event);
        res.0.well_formed();
        res
    }

    #[verifier::rlimit(50)]
    fn turn(&self, state: LoopState, event: Event) -> (res: (LoopState, Turn))
        ensures
            (res.0@, res.1@) == transition(self@, state@, event@),
    {
        let s = state;
        proof {
            use_type_invariant(&s);
        }
        match s.phase {
            Phase::Created => match event {
                Event::Start => {
                    let path = self.config_path.clone();
                    self.wait(s, Phase::LoadingConfig, quiet(), Action::LoadConfig { path })
                },
                _ => self.stop(s, quiet(), Action::Fail(RunError::Protocol)),
            },
            Phase::LoadingConfig => match event {
                Event::Config(file) => match require(file) {
                    Err(e) => self.stop(s, quiet(), Action::Fail(RunError::Config(e))),
                    Ok(c) => {
                        let limit = c.loop_config.max_iterations;
                        let s = LoopState { phase: Phase::ReadingProgress, config: c, limit, ..s };
                        let path = self.progress_path.clone();
                        (s, Turn { notices: quiet(), action: Action::ReadProgress { path } })
                    },
                },
                _ => self.stop(s, quiet(), Action::Fail(RunError::Protocol)),
            },
            Phase::ReadingProgress => match event {
                Event::Store(read) => match read {
                    StoreRead::Unreadable { reason } => self.stop(
                        s,
                        quiet(),
                        Action::Fail(RunError::Progress { reason }),
                    ),
                    StoreRead::Absent => self.resume_after(s, 0),
                    StoreRead::Text(t) => {
                        let n = count_records(t.as_str());
                        self.resume_after(s, n)
                    },
                },
                _ => self.stop(s, quiet(), Action::Fail(RunError::Protocol)),
            },
            Phase::Reloading => match event {
                Event::Config(file) => {
                    let signal = Self::signal_after(&s.config, &file);
                    let p = build_prompt(signal.as_str(), self.plan_path.as_str());
                    self.reload_with(s, file, p)
                },
                _ => self.stop(s, quiet(), Action::Fail(RunError::Protocol)),
            },
            Phase::Locating => match event {
                Event::Located(found) => self.on_located(s, found),
                _ => self.stop(s, quiet(), Action::Fail(RunError::Protocol)),
            },
            Phase::RunningAgent => match event {
                Event::Executed(x) => self.on_agent(s, x),
                _ => self.stop(s, quiet(), Action::Fail(RunError::Protocol)),
            },
            Phase::ProbingRepository => match event {
                Event::Executed(x) => {
                    let (s, ex) = Self::seeing(s, x);
                    self.probe_repository(s, ex, quiet())
                },
                _ => self.stop(s, quiet(), Action::Fail(RunError::Protocol)),
            },
            Phase::ProbingChanges => match event {
                Event::Executed(x) => {
                    let (s, ex) = Self::seeing(s, x);
                    self.probe_changes(s, ex, quiet())
                },
                _ => self.stop(s, quiet(), Action::Fail(RunError::Protocol)),
            },
            Phase::Committing => match event {
                Event::Executed(x) => {
                    let (s, ex) = Self::seeing(s, x);
                    self.commit_changes(s, ex, quiet())
                },
                _ => self.stop(s, quiet(), Action::Fail(RunError::Protocol)),
            },
            Phase::Validating => match event {
                Event::Executed(x) => {
                    let (s, ex) = Self::seeing(s, x);
                    self.validate(s, ex, quiet())
                },
                _ => self.stop(s, quiet(), Action::Fail(RunError::Protocol)),
            },
            Phase::ProbingStore => match event {
                Event::Store(read) => self.on_store(s, read),
                _ => self.stop(s, quiet(), Action::Fail(RunError::Protocol)),
            },
            Phase::ReadingClock => match event {
                Event::Clock(t) => {
                    let stamp = t.format();
                    self.stamp_with(s, stamp)
                },
                _ => self.stop(s, quiet(), Action::Fail(RunError::Protocol)),
            },
            Phase::Appending => match event {
                Event::Written { error } => self.on_written(s, error),
                _ => self.stop(s, quiet(), Action::Fail(RunError::Protocol)),
            },
            Phase::RunningGates => match event {
                Event::Executed(x) => {
                    let (s, ex) = Self::seeing(s, x);
                    self.run_gates(s, ex, quiet())
                },
                _ => self.stop(s, quiet(), Action::Fail(RunError::Protocol)),
            },
            Phase::Sleeping => match event {
                Event::Slept => self.next_iteration(s, quiet()),
                _ => self.stop(s, quiet(), Action::Fail(RunError::Protocol)),
            },
            Phase::Finished => self.stop(s, quiet(), Action::Fail(RunError::Protocol)),
        }
    }
}

} // verus!
