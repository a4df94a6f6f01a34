//! What holds of the library as a whole, each statement proved from the
//! definitions that the contracts use.

use crate::config::{GateErrorView, QualityGateView};
use crate::process::{shell_command, CommandOutputView, ExecutionView, StepView};
use crate::progress::{
    entry, lemma_append_counts_once, lemma_line_marker_is_marker, lemma_plain_has_no_marker,
    gap, marked, reading, records, tidy, ProgressView, MARKER,
};
use crate::runner::{
    recorded, summary, transition, ActionView, EventView, LoopOutcomeView, LoopRunnerView,
    LoopStateView, Phase, RunErrorView, StoreReadView,
};
use crate::text::{contains, lines};
use crate::validation::{
    all_pass, fault_from, gates_from, quality_gates, QualityGateResultView, ValidationErrorView,
};
use vstd::prelude::*;

verus! {

/// A quality gate resolves to no command if and only if it has both a
/// command and a script, or neither. Otherwise it resolves to its command,
/// unchanged, or to `bash` applied to its script.
pub proof fn gate_resolution(gate: QualityGateView)
    ensures
        gate.resolved() is Err <==> (gate.command is Some <==> gate.script is Some),
        gate.command is Some && gate.script is Some ==> gate.resolved() == Err::<
            Seq<char>,
            GateErrorView,
        >(GateErrorView::Both { name: gate.name }),
        gate.command is None && gate.script is None ==> gate.resolved() == Err::<
            Seq<char>,
            GateErrorView,
        >(GateErrorView::Neither { name: gate.name }),
        gate.command is Some && gate.script is None ==> gate.resolved() == Ok::<
            Seq<char>,
            GateErrorView,
        >(gate.command->0),
        gate.script is Some && gate.command is None ==> gate.resolved() == Ok::<
            Seq<char>,
            GateErrorView,
        >("bash "@ + gate.script->0),
{
}

/// Two readings of a progress store to which nothing was appended in
/// between give the same header fields, the same status and the same number
/// of records.
pub proof fn read_is_idempotent(
    content: Option<Seq<char>>,
    first: ProgressView,
    second: ProgressView,
    first_count: u32,
    second_count: u32,
)
    requires
        first == reading(content),
        second == reading(content),
        first_count == records(content),
        second_count == records(content),
    ensures
        first == second,
        first_count == second_count,
{
}

/// The first `k` of `executions` ran to their end, with these outputs.
pub open spec fn finished(executions: Seq<ExecutionView>, k: int) -> bool {
    forall|i: int| 0 <= i < k ==> (#[trigger] executions[i]) is Finished
}

/// The first `k` of `gates` resolve to a command.
pub open spec fn resolvable(gates: Seq<QualityGateView>, k: int) -> bool {
    forall|i: int| 0 <= i < k ==> (#[trigger] gates[i]).resolved() is Ok
}

/// The outcome of gate `i`: its name, whether its command ended with
/// status zero, and what it printed.
pub open spec fn gate_outcome(gates: Seq<QualityGateView>, executions: Seq<ExecutionView>, i: int)
    -> (Seq<char>, bool, Seq<char>) {
    (gates[i].name, executions[i]->Finished_0.success(), executions[i]->Finished_0.combined())
}

/// The outcomes of the first `k` gates.
pub open spec fn gate_outcomes(
    gates: Seq<QualityGateView>,
    executions: Seq<ExecutionView>,
    k: int,
) -> Seq<(Seq<char>, bool, Seq<char>)> {
    Seq::new(k as nat, |i: int| gate_outcome(gates, executions, i))
}

/// Where every gate from `i` on resolves, none is at fault.
proof fn lemma_no_fault(gates: Seq<QualityGateView>, i: int)
    requires
        0 <= i,
        resolvable(gates, gates.len() as int),
    ensures
        fault_from(gates, i) is None,
    decreases gates.len() - i,
{
    if i < gates.len() {
        assert(gates[i].resolved() is Ok);
        lemma_no_fault(gates, i + 1);
    }
}

/// Where the gates before `k` resolve and gate `k` does not, the fault
/// from `i` on is that of gate `k`.
proof fn lemma_first_fault(gates: Seq<QualityGateView>, i: int, k: int)
    requires
        0 <= i <= k < gates.len(),
        resolvable(gates, k),
        gates[k].resolved() is Err,
    ensures
        fault_from(gates, i) == Some(gates[k].resolved()->Err_0),
    decreases k - i,
{
    if i < k {
        assert(gates[i].resolved() is Ok);
        lemma_first_fault(gates, i + 1, k);
    }
}

/// A gate that resolves to no command is found before any gate runs: the
/// quality gates give the error of the first such gate in declared order,
/// and ask for no command, whatever has been executed.
pub proof fn gate_fault_comes_first(
    dir: Seq<char>,
    gates: Seq<QualityGateView>,
    executions: Seq<ExecutionView>,
    k: int,
)
    requires
        0 <= k < gates.len(),
        resolvable(gates, k),
        gates[k].resolved() is Err,
    ensures
        quality_gates(dir, gates, executions) == Err::<
            StepView<QualityGateResultView>,
            ValidationErrorView,
        >(ValidationErrorView::Gate(gates[k].resolved()->Err_0)),
{
    lemma_first_fault(gates, 0, k);
}

proof fn lemma_gates_from(
    dir: Seq<char>,
    gates: Seq<QualityGateView>,
    executions: Seq<ExecutionView>,
    i: int,
    k: int,
)
    requires
        0 <= i <= k <= gates.len(),
        k <= executions.len(),
        finished(executions, k),
        resolvable(gates, k),
    ensures
        gates_from(dir, gates, executions, i, gate_outcomes(gates, executions, i)) == gates_from(
            dir,
            gates,
            executions,
            k,
            gate_outcomes(gates, executions, k),
        ),
    decreases k - i,
{
    if i < k {
        assert(executions[i] is Finished);
        assert(gates[i].resolved() is Ok);
        assert(gate_outcomes(gates, executions, i).push(gate_outcome(gates, executions, i))
            =~= gate_outcomes(gates, executions, i + 1));
        lemma_gates_from(dir, gates, executions, i + 1, k);
    }
}

/// Every quality gate is executed, whatever the gates before it gave: once
/// the first `k` gates have run to their end, passed or failed, the next
/// thing asked for is the command of gate `k`.
pub proof fn every_gate_runs(
    dir: Seq<char>,
    gates: Seq<QualityGateView>,
    executions: Seq<ExecutionView>,
    k: int,
)
    requires
        0 <= k < gates.len(),
        executions.len() == k,
        finished(executions, k),
        resolvable(gates, gates.len() as int),
    ensures
        quality_gates(dir, gates, executions) == Ok::<
            StepView<QualityGateResultView>,
            ValidationErrorView,
        >(StepView::Run(shell_command(gates[k].resolved()->Ok_0, dir))),
{
    assert(resolvable(gates, k));
    lemma_no_fault(gates, 0);
    lemma_gates_from(dir, gates, executions, 0, k);
    assert(gate_outcomes(gates, executions, 0) =~= Seq::empty());
    assert(gates[k].resolved() is Ok);
}

/// Once every gate has run to its end there is one outcome for each gate,
/// in the declared order, and the gates pass as a whole if and only if each
/// of them passed.
pub proof fn gates_pass_together(
    dir: Seq<char>,
    gates: Seq<QualityGateView>,
    executions: Seq<ExecutionView>,
)
    requires
        executions.len() >= gates.len(),
        finished(executions, gates.len() as int),
        resolvable(gates, gates.len() as int),
    ensures
        quality_gates(dir, gates, executions) matches Ok(StepView::Done(g)) && g.results
            == gate_outcomes(gates, executions, gates.len() as int) && (g.all_passed <==> forall|
            i: int,
        |
            0 <= i < gates.len() ==> (#[trigger] executions[i])->Finished_0.success()),
{
    let n = gates.len() as int;
    lemma_no_fault(gates, 0);
    lemma_gates_from(dir, gates, executions, 0, n);
    assert(gate_outcomes(gates, executions, 0) =~= Seq::empty());
    let done = gate_outcomes(gates, executions, n);
    if all_pass(done) {
        assert forall|i: int| 0 <= i < gates.len() implies (
        #[trigger] executions[i])->Finished_0.success() by {
            assert(done[i].1);
        }
    }
    if forall|i: int| 0 <= i < gates.len() ==> (#[trigger] executions[i])->Finished_0.success() {
        assert forall|i: int| 0 <= i < done.len() implies (#[trigger] done[i]).1 by {
            assert(executions[i]->Finished_0.success());
        }
    }
}

/// The quality gates cannot be all passed while one of them failed, and
/// the run of the gates ends early only where a gate does not resolve or
/// cannot be started: a failed gate never does that.
pub proof fn failed_gate_fails_all(
    dir: Seq<char>,
    gates: Seq<QualityGateView>,
    executions: Seq<ExecutionView>,
    failed: int,
)
    requires
        executions.len() >= gates.len(),
        finished(executions, gates.len() as int),
        resolvable(gates, gates.len() as int),
        0 <= failed < gates.len(),
        !executions[failed]->Finished_0.success(),
    ensures
        quality_gates(dir, gates, executions) matches Ok(StepView::Done(g)) && !g.all_passed
            && g.results.len() == gates.len(),
{
    gates_pass_together(dir, gates, executions);
}

// A statement about one turn unfolds the whole machine; each gets a larger
// resource limit than the default.

/// Every turn keeps the state well formed.
#[verifier::rlimit(50)]
pub proof fn turn_keeps_wf(r: LoopRunnerView, s: LoopStateView, e: EventView)
    requires
        s.wf(),
    ensures
        transition(r, s, e).0.wf(),
{
}

/// The state before the run begins is well formed.
pub proof fn initial_is_wf()
    ensures
        LoopStateView::initial().wf(),
{
}

/// The phases of an iteration that come after the agent has run.
pub open spec fn after_agent(phase: Phase) -> bool {
    phase.in_iteration() && !(phase is Reloading || phase is Locating || phase is RunningAgent)
}

/// The machine waits for a quality gate only in an iteration whose
/// validation passed and whose agent printed the completion signal, and
/// only after the record of that iteration was appended.
#[verifier::rlimit(50)]
pub proof fn gates_need_validation_and_signal(r: LoopRunnerView, s: LoopStateView, e: EventView)
    requires
        s.wf(),
    ensures
        ({
            let next = transition(r, s, e).0;
            next.phase is RunningGates ==> {
                &&& next.record.validation_passed
                &&& contains(next.output, next.config.loop_config.completion_signal)
                &&& s.phase is Appending || s.phase is RunningGates
                &&& next.iteration == s.iteration
                &&& next.record == s.record
            }
        }),
{
}

/// What the agent printed is what the signal is looked for in, until the
/// next iteration: no turn after the agent's changes the output, the signal
/// or the number of the iteration, unless it begins a new iteration or ends
/// the run.
#[verifier::rlimit(50)]
pub proof fn iteration_keeps_output_and_signal(r: LoopRunnerView, s: LoopStateView, e: EventView)
    requires
        s.wf(),
        after_agent(s.phase),
    ensures
        ({
            let next = transition(r, s, e).0;
            after_agent(next.phase) ==> {
                &&& next.output == s.output
                &&& next.config == s.config
                &&& next.iteration == s.iteration
            }
        }),
{
}

/// If the agent's output does not hold the completion signal, no turn of
/// that iteration leads to the quality gates, whatever validation gives.
#[verifier::rlimit(50)]
pub proof fn no_signal_no_gates(r: LoopRunnerView, s: LoopStateView, e: EventView)
    requires
        s.wf(),
        after_agent(s.phase),
        !contains(s.output, s.config.loop_config.completion_signal),
    ensures
        !(transition(r, s, e).0.phase is RunningGates),
        !(s.phase is RunningGates),
{
}

/// The verdict of validation goes into the record as it came: passed if
/// and only if the command ended with status zero.
#[verifier::rlimit(50)]
pub proof fn record_holds_the_verdict(r: LoopRunnerView, s: LoopStateView, o: CommandOutputView)
    requires
        s.wf(),
        s.phase is Validating,
    ensures
        ({
            let next = transition(r, s, EventView::Executed(ExecutionView::Finished(o))).0;
            &&& next.phase is ProbingStore
            &&& next.record.validation_passed == o.success()
            &&& next.record.promise_found == contains(
                s.output,
                s.config.loop_config.completion_signal,
            )
            &&& next.record.iteration == s.iteration
        }),
{
}

/// If validation failed, no turn of that iteration leads to the quality
/// gates, even where the completion signal was found.
#[verifier::rlimit(50)]
pub proof fn failed_validation_no_gates(r: LoopRunnerView, s: LoopStateView, e: EventView)
    requires
        s.wf(),
        s.phase.recorded(),
        !s.record.validation_passed,
    ensures
        ({
            let next = transition(r, s, e).0;
            &&& !(next.phase is RunningGates)
            &&& !(s.phase is RunningGates)
            &&& next.phase.recorded() ==> next.record == s.record
        }),
{
}

/// A run takes up with the iteration after the last one recorded: with
/// `n` records in the store it begins iteration `n + 1`, and where that
/// would pass the limit it makes no iteration at all.
#[verifier::rlimit(50)]
pub proof fn resumes_after_the_last_record(r: LoopRunnerView, s: LoopStateView, read: StoreReadView)
    requires
        s.wf(),
        s.phase is ReadingProgress,
        !(read is Unreadable),
    ensures
        ({
            let (next, turn) = transition(r, s, EventView::Store(read));
            let n = recorded(read);
            if n < s.limit {
                &&& next.phase is Reloading
                &&& next.iteration == n + 1
                &&& turn.action == ActionView::LoadConfig { path: r.config_path }
            } else {
                turn.action == ActionView::Finish(
                    LoopOutcomeView::MaxIterations {
                        iterations: s.config.loop_config.max_iterations,
                    },
                )
            }
        }),
{
}

/// The store after the driver has performed `action`.
pub open spec fn store_after(store: Seq<char>, action: ActionView) -> Seq<char> {
    match action {
        ActionView::Append { text, .. } => store + text,
        _ => store,
    }
}

/// The number of records in the store: the number of its lines that
/// begin with the marker.
pub open spec fn held(store: Seq<char>) -> nat {
    marked(lines(store))
}

/// The machine and the store agree: the iteration under way is the one
/// after the last record, and once its record is appended it is the last
/// record; and while the record waits for its instant, the machine knows
/// whether the last line of the store is open.
pub open spec fn in_step(s: LoopStateView, store: Seq<char>) -> bool {
    if s.phase is Appending || s.phase is RunningGates || s.phase is Sleeping {
        held(store) == s.iteration
    } else if s.phase is ReadingClock {
        held(store) + 1 == s.iteration && s.open == !tidy(store)
    } else if s.phase.in_iteration() {
        held(store) + 1 == s.iteration
    } else {
        true
    }
}

/// What the driver reports of the store is true: the text is the text of
/// the store, and a store reported as absent is empty.
pub open spec fn true_reading(e: EventView, store: Seq<char>) -> bool {
    match e {
        EventView::Store(StoreReadView::Text(t)) => t == store,
        EventView::Store(StoreReadView::Absent) => store.len() == 0,
        _ => true,
    }
}

/// The driver tells the truth about the store whenever it is asked to
/// read it, when the run begins and before each record is appended; and
/// when the run begins the number of records fits in 32 bits.
pub open spec fn faithful(s: LoopStateView, e: EventView, store: Seq<char>) -> bool {
    &&& s.phase is ReadingProgress ==> held(store) <= u32::MAX && true_reading(e, store)
    &&& s.phase is ProbingStore ==> true_reading(e, store)
}

/// Each record is numbered one above the number of records before it, in
/// one run and from one run to the next: no number is given twice. As long
/// as the store is what the driver read and appended to, the machine and
/// the store agree after every turn; so a record, when it is appended, has
/// the number of the iteration under way, which is one more than the store
/// held, and a later run takes up one above that.
#[verifier::rlimit(50)]
pub proof fn numbers_follow_the_store(
    r: LoopRunnerView,
    s: LoopStateView,
    e: EventView,
    store: Seq<char>,
)
    requires
        s.wf(),
        in_step(s, store),
        faithful(s, e, store),
    ensures
        ({
            let (next, turn) = transition(r, s, e);
            &&& in_step(next, store_after(store, turn.action))
            &&& turn.action matches ActionView::Append { text, .. } ==> exists|stamp: Seq<char>|
                text == gap(store) + entry(s.record, stamp) && s.record.iteration == held(store)
                    + 1 && held(store + text) == held(store) + 1
        }),
{
    reveal_strlit("Complete");
    reveal_strlit("Validation passed, waiting for completion");
    reveal_strlit("Validation failed");
    let (next, turn) = transition(r, s, e);
    if s.phase is ReadingClock {
        if let EventView::Clock(t) = e {
            if let Some(stamp) = t.stamp() {
                if !contains(stamp, MARKER@) {
                    assert(s.record.summary == summary(
                        s.record.validation_passed,
                        s.record.promise_found,
                    ));
                    lemma_plain_has_no_marker(s.record.summary);
                    lemma_line_marker_is_marker(s.record.summary);
                    lemma_line_marker_is_marker(stamp);
                    lemma_append_counts_once(store, s.record, stamp);
                    let text = gap(store) + entry(s.record, stamp);
                    assert(text =~= crate::runner::record_text(s.open, s.record, stamp));
                    assert(turn.action == ActionView::Append { path: r.progress_path, text });
                }
            }
        }
    }
    if s.phase is ReadingProgress {
        if let EventView::Store(StoreReadView::Absent) = e {
            assert(store =~= Seq::<char>::empty());
            assert(lines(store) =~= Seq::<Seq<char>>::empty());
        }
    }
}

/// The event `e` answers what the machine asked for when it went to wait
/// in `phase`.
pub open spec fn answers(phase: Phase, e: EventView) -> bool {
    match phase {
        Phase::Created => e is Start,
        Phase::LoadingConfig | Phase::Reloading => e is Config,
        Phase::ReadingProgress => e is Store,
        Phase::Locating => e is Located,
        Phase::RunningAgent
        | Phase::ProbingRepository
        | Phase::ProbingChanges
        | Phase::Committing
        | Phase::Validating
        | Phase::RunningGates => e is Executed,
        Phase::ProbingStore => e is Store,
        Phase::ReadingClock => e is Clock,
        Phase::Appending => e is Written,
        Phase::Sleeping => e is Slept,
        Phase::Finished => false,
    }
}

/// Once the loop has begun, a run never breaks off without an outcome:
/// whatever the driver reports in answer to what was asked, the machine
/// goes on or ends the run with one of the four outcomes.
#[verifier::rlimit(50)]
pub proof fn loop_ends_with_an_outcome(r: LoopRunnerView, s: LoopStateView, e: EventView)
    requires
        s.wf(),
        s.phase.in_iteration(),
        answers(s.phase, e),
    ensures
        !(transition(r, s, e).1.action is Fail),
{
}

/// A run breaks off without an outcome only before the loop begins, where
/// the configuration or the progress store cannot be read, or where the
/// driver reports what was not asked for.
#[verifier::rlimit(50)]
pub proof fn breaks_off_only_before_the_loop(r: LoopRunnerView, s: LoopStateView, e: EventView)
    requires
        s.wf(),
    ensures
        ({
            let turn = transition(r, s, e).1;
            turn.action matches ActionView::Fail(error) ==> match error {
                RunErrorView::Config(_) => s.phase is LoadingConfig,
                RunErrorView::Progress { .. } => s.phase is ReadingProgress,
                RunErrorView::Protocol => !answers(s.phase, e),
            }
        }),
{
}

/// A run has one end: after it nothing is asked for any more.
#[verifier::rlimit(50)]
pub proof fn outcome_is_final(r: LoopRunnerView, s: LoopStateView, e: EventView)
    requires
        s.wf(),
    ensures
        ({
            let (next, turn) = transition(r, s, e);
            &&& (turn.action is Finish || turn.action is Fail) <==> next.phase is Finished
            &&& s.phase is Finished ==> turn.action == ActionView::Fail(RunErrorView::Protocol)
        }),
{
}

/// An agent that cannot be found or started ends the run with the
/// iterations made before, and nothing is appended for the attempt.
#[verifier::rlimit(50)]
pub proof fn agent_that_cannot_run_ends_the_run(r: LoopRunnerView, s: LoopStateView, e: EventView)
    requires
        s.wf(),
        (s.phase is Locating && e == EventView::Located(false)) || (s.phase is RunningAgent
            && e matches EventView::Executed(ExecutionView::NotStarted { .. })),
    ensures
        ({
            let turn = transition(r, s, e).1;
            &&& turn.action matches ActionView::Finish(
                LoopOutcomeView::Error { iterations, .. },
            )
            &&& turn.action->Finish_0->Error_iterations == s.iteration - 1
        }),
{
}

/// How the agent ended does not matter: whatever its exit status, the
/// iteration goes on with what it printed.
#[verifier::rlimit(50)]
pub proof fn agent_exit_status_is_not_fatal(r: LoopRunnerView, s: LoopStateView, o: CommandOutputView)
    requires
        s.wf(),
        s.phase is RunningAgent,
    ensures
        ({
            let (next, turn) = transition(r, s, EventView::Executed(ExecutionView::Finished(o)));
            &&& turn.action is Execute
            &&& next.output == o.combined()
            &&& next.iteration == s.iteration
            &&& if s.config.git.auto_commit {
                next.phase is ProbingRepository
            } else {
                next.phase is Validating
            }
        }),
{
}

/// Version control that fails does not end the run: the iteration goes on
/// to validation without a commit, and the operator is told.
#[verifier::rlimit(50)]
pub proof fn failed_version_control_is_absorbed(r: LoopRunnerView, s: LoopStateView, e: EventView)
    requires
        s.wf(),
        s.phase is ProbingRepository || s.phase is ProbingChanges || s.phase is Committing,
        e is Executed,
    ensures
        ({
            let (next, turn) = transition(r, s, e);
            &&& turn.action is Execute
            &&& next.phase is ProbingRepository || next.phase is ProbingChanges
                || next.phase is Committing || next.phase is Validating
            &&& next.iteration == s.iteration
        }),
{
}

/// No commit is asked for where the work tree has no changes: after a
/// status that shows nothing, the next command is the validation command.
#[verifier::rlimit(50)]
pub proof fn no_changes_no_commit(r: LoopRunnerView, s: LoopStateView, o: CommandOutputView)
    requires
        s.wf(),
        s.phase is ProbingChanges,
        o.success(),
        crate::text::trim(o.stdout).len() == 0,
    ensures
        ({
            let (next, turn) = transition(r, s, EventView::Executed(ExecutionView::Finished(o)));
            &&& next.phase is Validating
            &&& turn.action == ActionView::Execute(
                shell_command(s.config.validation.command, r.work_dir),
            )
            &&& turn.notices.len() == 0
        }),
{
}

/// A record is appended for every iteration whose agent ran, whatever
/// validation gave and whether or not the signal was found: once the
/// verdict is in, the clock is read, and with the instant written, in a
/// text that does not hold the marker, the record of this iteration is
/// what the machine asks to append.
#[verifier::rlimit(50)]
pub proof fn every_iteration_is_recorded(r: LoopRunnerView, s: LoopStateView, t: crate::progress::Timestamp)
    requires
        s.wf(),
        s.phase is ReadingClock,
        t.stamp() is Some,
        !contains(t.stamp()->0, MARKER@),
    ensures
        ({
            let (next, turn) = transition(r, s, EventView::Clock(t));
            &&& next.phase is Appending
            &&& turn.action == ActionView::Append {
                path: r.progress_path,
                text: crate::runner::record_text(s.open, s.record, t.stamp()->0),
            }
            &&& s.record.iteration == s.iteration
        }),
{
}

/// After an iteration that did not complete the run, the machine sleeps
/// if and only if the number of the iteration is below the configured
/// number of iterations; at the limit the run ends.
#[verifier::rlimit(50)]
pub proof fn sleeps_between_iterations(r: LoopRunnerView, s: LoopStateView)
    requires
        s.wf(),
        s.phase is Appending,
        !(s.record.validation_passed && s.record.promise_found),
    ensures
        ({
            let (next, turn) = transition(r, s, EventView::Written { error: None });
            if s.iteration < s.config.loop_config.max_iterations {
                turn.action == ActionView::Sleep { secs: s.config.loop_config.sleep_between_secs }
            } else if s.iteration < s.limit {
                next.phase is Reloading && next.iteration == s.iteration + 1
            } else {
                turn.action == ActionView::Finish(
                    LoopOutcomeView::MaxIterations {
                        iterations: s.config.loop_config.max_iterations,
                    },
                )
            }
        }),
{
}

/// The state after the events `es` came, one turn each, from state `s` on.
pub open spec fn after(r: LoopRunnerView, s: LoopStateView, es: Seq<EventView>) -> LoopStateView
    decreases es.len(),
{
    if es.len() == 0 {
        s
    } else {
        transition(r, after(r, s, es.drop_last()), es.last()).0
    }
}

/// Every state of a run is well formed.
#[verifier::rlimit(50)]
pub proof fn runs_stay_wf(r: LoopRunnerView, s: LoopStateView, es: Seq<EventView>)
    requires
        s.wf(),
    ensures
        after(r, s, es).wf(),
    decreases es.len(),
{
    if es.len() > 0 {
        runs_stay_wf(r, s, es.drop_last());
        turn_keeps_wf(r, after(r, s, es.drop_last()), es.last());
    }
}

/// The state `t` belongs to iteration `n`, after its agent printed
/// `output` under the configuration `config`, or to a later time.
pub open spec fn since(
    t: LoopStateView,
    n: u32,
    output: Seq<char>,
    config: crate::config::ConfigView,
) -> bool {
    &&& t.wf()
    &&& t.phase.in_iteration() || t.phase is Finished
    &&& t.iteration >= n
    &&& t.iteration == n ==> t.phase is Finished || (after_agent(t.phase) && t.output == output
        && t.config == config)
}

#[verifier::rlimit(50)]
proof fn lemma_since(
    r: LoopRunnerView,
    t: LoopStateView,
    e: EventView,
    n: u32,
    output: Seq<char>,
    config: crate::config::ConfigView,
)
    requires
        since(t, n, output, config),
        n >= 1,
    ensures
        since(transition(r, t, e).0, n, output, config),
{
}

proof fn lemma_since_run(
    r: LoopRunnerView,
    t: LoopStateView,
    es: Seq<EventView>,
    n: u32,
    output: Seq<char>,
    config: crate::config::ConfigView,
)
    requires
        since(t, n, output, config),
        n >= 1,
    ensures
        since(after(r, t, es), n, output, config),
    decreases es.len(),
{
    if es.len() > 0 {
        lemma_since_run(r, t, es.drop_last(), n, output, config);
        lemma_since(r, after(r, t, es.drop_last()), es.last(), n, output, config);
    }
}

/// If what the agent printed does not hold the completion signal, the
/// quality gates are never evaluated in that iteration, whatever comes
/// after: however validation ends and whatever else the driver reports, as
/// long as the iteration lasts the machine does not wait for a gate.
#[verifier::rlimit(50)]
pub proof fn without_the_signal_no_gates_in_the_iteration(
    r: LoopRunnerView,
    s: LoopStateView,
    printed: CommandOutputView,
    es: Seq<EventView>,
)
    requires
        s.wf(),
        s.phase is RunningAgent,
        !contains(printed.combined(), s.config.loop_config.completion_signal),
    ensures
        ({
            let begun = transition(r, s, EventView::Executed(ExecutionView::Finished(printed))).0;
            let end = after(r, begun, es);
            end.iteration == s.iteration ==> !(end.phase is RunningGates)
        }),
{
    let begun = transition(r, s, EventView::Executed(ExecutionView::Finished(printed))).0;
    lemma_since_run(r, begun, es, s.iteration, printed.combined(), s.config);
}

/// The state `t` belongs to the iteration with the record `record`, which
/// is made up, or to a later time.
pub open spec fn since_recorded(
    t: LoopStateView,
    record: crate::progress::IterationResultView,
) -> bool {
    &&& t.wf()
    &&& t.phase.in_iteration() || t.phase is Finished
    &&& t.iteration >= record.iteration
    &&& t.iteration == record.iteration ==> t.phase is Finished || t.phase is Sleeping || (
    t.phase.recorded() && t.record == record)
}

#[verifier::rlimit(50)]
proof fn lemma_since_recorded(
    r: LoopRunnerView,
    t: LoopStateView,
    e: EventView,
    record: crate::progress::IterationResultView,
)
    requires
        since_recorded(t, record),
        record.iteration >= 1,
        !record.validation_passed,
    ensures
        since_recorded(transition(r, t, e).0, record),
{
}

proof fn lemma_since_recorded_run(
    r: LoopRunnerView,
    t: LoopStateView,
    es: Seq<EventView>,
    record: crate::progress::IterationResultView,
)
    requires
        since_recorded(t, record),
        record.iteration >= 1,
        !record.validation_passed,
    ensures
        since_recorded(after(r, t, es), record),
    decreases es.len(),
{
    if es.len() > 0 {
        lemma_since_recorded_run(r, t, es.drop_last(), record);
        lemma_since_recorded(r, after(r, t, es.drop_last()), es.last(), record);
    }
}

/// If validation fails, the quality gates are never evaluated in that
/// iteration, even where the completion signal was found: after a
/// validation command that ended with a status other than zero, whatever
/// the driver reports, as long as the iteration lasts the machine does not
/// wait for a gate.
#[verifier::rlimit(50)]
pub proof fn after_failed_validation_no_gates_in_the_iteration(
    r: LoopRunnerView,
    s: LoopStateView,
    validated: CommandOutputView,
    es: Seq<EventView>,
)
    requires
        s.wf(),
        s.phase is Validating,
        !validated.success(),
    ensures
        ({
            let judged = transition(
                r,
                s,
                EventView::Executed(ExecutionView::Finished(validated)),
            ).0;
            let end = after(r, judged, es);
            end.iteration == s.iteration ==> !(end.phase is RunningGates)
        }),
{
    let judged = transition(r, s, EventView::Executed(ExecutionView::Finished(validated))).0;
    lemma_since_recorded_run(r, judged, es, judged.record);
}

/// The state and the store after the events `es`, where the driver appends
/// to the store what it is asked to append.
pub open spec fn run_with_store(
    r: LoopRunnerView,
    s: LoopStateView,
    store: Seq<char>,
    es: Seq<EventView>,
) -> (LoopStateView, Seq<char>)
    decreases es.len(),
{
    if es.len() == 0 {
        (s, store)
    } else {
        let (before, kept) = run_with_store(r, s, store, es.drop_last());
        let (next, turn) = transition(r, before, es.last());
        (next, store_after(kept, turn.action))
    }
}

/// The driver is faithful at every turn of the run.
pub open spec fn all_faithful(
    r: LoopRunnerView,
    s: LoopStateView,
    store: Seq<char>,
    es: Seq<EventView>,
) -> bool
    decreases es.len(),
{
    es.len() == 0 || {
        let (before, kept) = run_with_store(r, s, store, es.drop_last());
        all_faithful(r, s, store, es.drop_last()) && faithful(before, es.last(), kept)
    }
}

/// Throughout a run with a faithful driver the machine and the store
/// agree: the iteration under way is always the one after the last record
/// in the store. So the records of one run and of the runs after it are
/// numbered one by one, from the number of records that the first run
/// found, and no number is given twice.
pub proof fn runs_follow_the_store(
    r: LoopRunnerView,
    s: LoopStateView,
    store: Seq<char>,
    es: Seq<EventView>,
)
    requires
        s.wf(),
        in_step(s, store),
        all_faithful(r, s, store, es),
    ensures
        ({
            let (end, kept) = run_with_store(r, s, store, es);
            end.wf() && in_step(end, kept)
        }),
    decreases es.len(),
{
    if es.len() > 0 {
        runs_follow_the_store(r, s, store, es.drop_last());
        let (before, kept) = run_with_store(r, s, store, es.drop_last());
        numbers_follow_the_store(r, before, es.last(), kept);
    }
}

/// A run that begins anew agrees with any store.
pub proof fn a_new_run_agrees_with_the_store(store: Seq<char>)
    ensures
        LoopStateView::initial().wf(),
        in_step(LoopStateView::initial(), store),
{
}

/// The executions of the quality gates that the machine has seen once
/// the event `e` has come in state `s`.
pub open spec fn gate_executions(s: LoopStateView, e: EventView) -> Seq<ExecutionView> {
    match (s.phase, e) {
        (Phase::RunningGates, EventView::Executed(x)) => s.executions.push(x),
        _ => Seq::empty(),
    }
}

/// A run completes only in an iteration whose validation passed, whose
/// agent printed the completion signal, whose record was appended and whose
/// quality gates have all run and all passed; and it completes with the
/// number of that iteration.
#[verifier::rlimit(50)]
pub proof fn completes_only_when_all_gates_pass(r: LoopRunnerView, s: LoopStateView, e: EventView)
    requires
        s.wf(),
    ensures
        ({
            let turn = transition(r, s, e).1;
            turn.action matches ActionView::Finish(LoopOutcomeView::Complete { iterations }) ==> {
                &&& iterations == s.iteration
                &&& s.phase is Appending || s.phase is RunningGates
                &&& s.record.validation_passed
                &&& contains(s.output, s.config.loop_config.completion_signal)
                &&& quality_gates(
                    r.work_dir,
                    s.config.quality_gates,
                    gate_executions(s, e),
                ) matches Ok(StepView::Done(g)) && g.all_passed
            }
        }),
{
}

/// Where the quality gates have all run and all passed, the run completes
/// at once.
#[verifier::rlimit(50)]
pub proof fn passed_gates_complete_the_run(r: LoopRunnerView, s: LoopStateView, e: EventView)
    requires
        s.wf(),
        (s.phase is Appending && e == EventView::Written { error: None }
            && s.record.validation_passed && s.record.promise_found) || (s.phase is RunningGates
            && e is Executed),
        quality_gates(r.work_dir, s.config.quality_gates, gate_executions(s, e)) matches Ok(
            StepView::Done(g),
        ) && g.all_passed,
    ensures
        transition(r, s, e).1.action == ActionView::Finish(
            LoopOutcomeView::Complete { iterations: s.iteration },
        ),
{
}

/// A run ends at the limit only when no iteration is left to make: the
/// store holds as many records as the limit allows, or the iteration at
/// the limit is over.
#[verifier::rlimit(50)]
pub proof fn limit_ends_the_run(r: LoopRunnerView, s: LoopStateView, e: EventView)
    requires
        s.wf(),
    ensures
        ({
            let turn = transition(r, s, e).1;
            turn.action matches ActionView::Finish(
                LoopOutcomeView::MaxIterations { iterations },
            ) ==> {
                &&& iterations == s.config.loop_config.max_iterations
                &&& if s.phase is ReadingProgress {
                    e matches EventView::Store(read) && recorded(read) >= s.limit
                } else {
                    s.iteration == s.limit && s.phase.in_iteration()
                }
            }
        }),
{
}

/// No run ends as stopped: a run completes, reaches the limit, or ends
/// with an error.
#[verifier::rlimit(50)]
pub proof fn no_run_is_stopped(r: LoopRunnerView, s: LoopStateView, e: EventView)
    requires
        s.wf(),
    ensures
        ({
            let turn = transition(r, s, e).1;
            turn.action matches ActionView::Finish(outcome) ==> !(outcome is Stopped)
        }),
{
}

/// A store that holds as many records as the configuration allows, or
/// more, leaves nothing to do: the run ends at once at the limit, and
/// nothing is executed or appended.
#[verifier::rlimit(50)]
pub proof fn a_full_store_ends_the_run_at_once(
    r: LoopRunnerView,
    s: LoopStateView,
    store: Seq<char>,
)
    requires
        s.wf(),
        s.phase is ReadingProgress,
        held(store) <= u32::MAX,
        held(store) >= s.config.loop_config.max_iterations,
    ensures
        ({
            let (next, turn) = transition(r, s, EventView::Store(StoreReadView::Text(store)));
            &&& turn.action == ActionView::Finish(
                LoopOutcomeView::MaxIterations {
                    iterations: s.config.loop_config.max_iterations,
                },
            )
            &&& next.phase is Finished
        }),
{
}

/// In a run with a faithful driver, from its beginning, whatever the store
/// holds and however it ends, and whatever has come before: a record that
/// the machine asks to append begins a line of its own and bears the number
/// of records in the store plus one, and once it is appended the store
/// holds one record more. So the records that a run appends to a store of `n`
/// records are numbered `n + 1`, `n + 2` and so on, and a later run goes on
/// from there.
pub proof fn appended_records_are_numbered_by_the_store(
    r: LoopRunnerView,
    store: Seq<char>,
    es: Seq<EventView>,
    e: EventView,
)
    requires
        all_faithful(r, LoopStateView::initial(), store, es),
        ({
            let (before, kept) = run_with_store(r, LoopStateView::initial(), store, es);
            faithful(before, e, kept)
        }),
    ensures
        ({
            let (before, kept) = run_with_store(r, LoopStateView::initial(), store, es);
            let turn = transition(r, before, e).1;
            turn.action matches ActionView::Append { text, .. } ==> {
                &&& exists|stamp: Seq<char>| text == gap(kept) + entry(before.record, stamp)
                &&& before.record.iteration == held(kept) + 1
                &&& held(kept + text) == held(kept) + 1
            }
        }),
{
    runs_follow_the_store(r, LoopStateView::initial(), store, es);
    let (before, kept) = run_with_store(r, LoopStateView::initial(), store, es);
    numbers_follow_the_store(r, before, e, kept);
}

} // verus!
