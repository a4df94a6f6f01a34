//! The validation command and the quality gates: which commands to execute,
//! and what their outcomes mean.

use crate::config::{GateError, GateErrorView, QualityGate, QualityGateView};
use crate::process::{
    shell, shell_command, CommandOutputView, Execution, ExecutionView, Step, StepView,
};
use crate::text::views;
use vstd::prelude::*;

verus! {

/// What one validation run gave.
#[derive(Debug)]
pub struct ValidationResult {
    pub passed: bool,
    pub output: String,
    pub exit_code: i32,
}

pub struct ValidationResultView {
    pub passed: bool,
    pub output: Seq<char>,
    pub exit_code: i32,
}

impl View for ValidationResult {
    type V = ValidationResultView;

    open spec fn view(&self) -> ValidationResultView {
        ValidationResultView {
            passed: self.passed,
            output: self.output@,
            exit_code: self.exit_code,
        }
    }
}

/// The result that a finished process stands for: passed where its exit
/// status was zero.
pub open spec fn verdict(o: CommandOutputView) -> ValidationResultView {
    ValidationResultView { passed: o.success(), output: o.combined(), exit_code: o.exit_code() }
}

/// The name of a gate, whether it passed, and what it printed.
pub type GateOutcome = (String, bool, String);

/// What the quality gates gave.
#[derive(Debug)]
pub struct QualityGateResult {
    pub all_passed: bool,
    pub results: Vec<GateOutcome>,
}

pub struct QualityGateResultView {
    pub all_passed: bool,
    pub results: Seq<(Seq<char>, bool, Seq<char>)>,
}

/// The views of a list of gate outcomes.
pub open spec fn outcomes(v: Seq<GateOutcome>) -> Seq<(Seq<char>, bool, Seq<char>)> {
    Seq::new(v.len(), |i: int| (v[i].0@, v[i].1, v[i].2@))
}

impl View for QualityGateResult {
    type V = QualityGateResultView;

    open spec fn view(&self) -> QualityGateResultView {
        QualityGateResultView { all_passed: self.all_passed, results: outcomes(self.results@) }
    }
}

/// Why validation or the quality gates gave no result.
#[derive(Debug)]
pub enum ValidationError {
    /// The validation command could not be started.
    ValidationNotStarted { command: String, reason: String },
    /// The command of a quality gate could not be started.
    GateNotStarted { command: String, reason: String },
    /// A quality gate resolves to no command.
    Gate(GateError),
}

pub enum ValidationErrorView {
    ValidationNotStarted { command: Seq<char>, reason: Seq<char> },
    GateNotStarted { command: Seq<char>, reason: Seq<char> },
    Gate(GateErrorView),
}

impl View for ValidationError {
    type V = ValidationErrorView;

    open spec fn view(&self) -> ValidationErrorView {
        match self {
            ValidationError::ValidationNotStarted {
                command,
                reason,
            } => ValidationErrorView::ValidationNotStarted { command: command@, reason: reason@ },
            ValidationError::GateNotStarted { command, reason } => ValidationErrorView::GateNotStarted {
                command: command@,
                reason: reason@,
            },
            ValidationError::Gate(e) => ValidationErrorView::Gate(e@),
        }
    }
}

impl ValidationErrorView {
    pub open spec fn message(self) -> Seq<char> {
        match self {
            ValidationErrorView::ValidationNotStarted { command, reason } =>
                "Failed to run validation command: "@ + command,
            ValidationErrorView::GateNotStarted { command, reason } =>
                "Failed to run quality gate command: "@ + command,
            ValidationErrorView::Gate(e) => e.message(),
        }
    }
}

impl ValidationError {
    /// The error in words.
    pub fn message(&self) -> (r: String)
        ensures
            r@ == self@.message(),
    {
        match self {
            ValidationError::ValidationNotStarted { command, reason } => {
                let mut r = "Failed to run validation command: ".to_string();
                r.append(command.as_str());
                r
            },
            ValidationError::GateNotStarted { command, reason } => {
                let mut r = "Failed to run quality gate command: ".to_string();
                r.append(command.as_str());
                r
            },
            ValidationError::Gate(e) => e.message(),
        }
    }
}

/// Whether every outcome in `results` is a pass.
pub open spec fn all_pass(results: Seq<(Seq<char>, bool, Seq<char>)>) -> bool {
    forall|i: int| 0 <= i < results.len() ==> (#[trigger] results[i]).1
}

/// The validation of `command` in `dir`: the command goes to the shell, and
/// its outcome is the verdict.
pub open spec fn validation(dir: Seq<char>, command: Seq<char>, executions: Seq<ExecutionView>)
    -> Result<StepView<ValidationResultView>, ValidationErrorView> {
    if executions.len() == 0 {
        Ok(StepView::Run(shell_command(command, dir)))
    } else {
        match executions[0] {
            ExecutionView::NotStarted { reason } => Err(
                ValidationErrorView::ValidationNotStarted { command, reason },
            ),
            ExecutionView::Finished(o) => Ok(StepView::Done(verdict(o))),
        }
    }
}

/// The error of the first gate from gate `i` on, in declared order, that
/// resolves to no command.
pub open spec fn fault_from(gates: Seq<QualityGateView>, i: int) -> Option<GateErrorView>
    decreases gates.len() - i,
{
    if i < 0 || i >= gates.len() {
        None
    } else {
        match gates[i].resolved() {
            Err(e) => Some(e),
            Ok(_) => fault_from(gates, i + 1),
        }
    }
}

/// The quality gates from gate `i` on, in their declared order, after the
/// outcomes `done` of the gates before it. Each gate is executed by the
/// shell, whatever the gates before it gave; the run ends early only where
/// a gate cannot be started.
pub open spec fn gates_from(
    dir: Seq<char>,
    gates: Seq<QualityGateView>,
    executions: Seq<ExecutionView>,
    i: int,
    done: Seq<(Seq<char>, bool, Seq<char>)>,
) -> Result<StepView<QualityGateResultView>, ValidationErrorView>
    decreases gates.len() - i,
{
    if i < 0 || i >= gates.len() {
        Ok(StepView::Done(QualityGateResultView { all_passed: all_pass(done), results: done }))
    } else {
        match gates[i].resolved() {
            Err(e) => Err(ValidationErrorView::Gate(e)),
            Ok(line) => if i >= executions.len() {
                Ok(StepView::Run(shell_command(line, dir)))
            } else {
                match executions[i] {
                    ExecutionView::NotStarted { reason } => Err(
                        ValidationErrorView::GateNotStarted { command: line, reason },
                    ),
                    ExecutionView::Finished(o) => gates_from(
                        dir,
                        gates,
                        executions,
                        i + 1,
                        done.push((gates[i].name, o.success(), o.combined())),
                    ),
                }
            },
        }
    }
}

/// The quality gates. Every gate is resolved before the first command is
/// asked for: where a gate resolves to no command, the error of the first
/// such gate is the result, whatever has been executed. Otherwise the gates
/// run from the first.
pub open spec fn quality_gates(
    dir: Seq<char>,
    gates: Seq<QualityGateView>,
    executions: Seq<ExecutionView>,
) -> Result<StepView<QualityGateResultView>, ValidationErrorView> {
    match fault_from(gates, 0) {
        Some(e) => Err(ValidationErrorView::Gate(e)),
        None => gates_from(dir, gates, executions, 0, Seq::empty()),
    }
}

/// Runs validation and quality gates in a working directory.
#[derive(Debug)]
pub struct ValidationRunner {
    work_dir: String,
}

impl View for ValidationRunner {
    type V = Seq<char>;

    closed spec fn view(&self) -> Seq<char> {
        self.work_dir@
    }
}

impl ValidationRunner {
    pub fn new(work_dir: &str) -> (r: Self)
        ensures
            r@ == work_dir@,
    {
        ValidationRunner { work_dir: work_dir.to_string() }
    }

    /// The working directory.
    pub fn work_dir(&self) -> (r: &str)
        ensures
            r@ == self@,
    {
        self.work_dir.as_str()
    }

    /// Runs the validation command.
    pub fn run_validation(&self, command: &str, executions: &Vec<Execution>) -> (r: Result<
        Step<ValidationResult>,
        ValidationError,
    >)
        ensures
            match validation(self@, command@, views(executions@)) {
                Ok(StepView::Run(c)) => r matches Ok(Step::Run(x)) && x@ == c,
                Ok(StepView::Done(v)) => r matches Ok(Step::Done(x)) && x@ == v,
                Err(e) => r matches Err(x) && x@ == e,
            },
    {
        if executions.len() == 0 {
            return Ok(Step::Run(shell(command, self.work_dir.as_str())));
        }
        match &executions[0] {
            Execution::NotStarted { reason } => Err(
                ValidationError::ValidationNotStarted {
                    command: command.to_string(),
                    reason: reason.clone(),
                },
            ),
            Execution::Finished(o) => Ok(
                Step::Done(
                    ValidationResult {
                        passed: o.success(),
                        output: o.combined(),
                        exit_code: o.exit_code(),
                    },
                ),
            ),
        }
    }

    /// Runs all quality gates.
    pub fn run_quality_gates(&self, gates: &Vec<QualityGate>, executions: &Vec<Execution>) -> (r:
        Result<Step<QualityGateResult>, ValidationError>)
        ensures
            match quality_gates(self@, views(gates@), views(executions@)) {
                Ok(StepView::Run(c)) => r matches Ok(Step::Run(x)) && x@ == c,
                Ok(StepView::Done(v)) => r matches Ok(Step::Done(x)) && x@ == v,
                Err(e) => r matches Err(x) && x@ == e,
            },
    {
        let mut k: usize = 0;
        while k < gates.len()
            invariant
                k <= gates.len(),
                fault_from(views(gates@), k as int) == fault_from(views(gates@), 0),
            decreases gates.len() - k,
        {
            match gates[k].get_command() {
                Ok(_) => {},
                Err(e) => {
                    return Err(ValidationError::Gate(e));
                },
            }
            k += 1;
        }
        let mut results: Vec<GateOutcome> = Vec::new();
        let mut all_passed = true;
        let mut i: usize = 0;
        assert(outcomes(results@) =~= Seq::empty());
        while i < gates.len()
            invariant
                i <= gates.len(),
                all_passed == all_pass(outcomes(results@)),
                fault_from(views(gates@), 0) is None,
                gates_from(self@, views(gates@), views(executions@), i as int, outcomes(results@))
                    == quality_gates(self@, views(gates@), views(executions@)),
            decreases gates.len() - i,
        {
            let ghost before = outcomes(results@);
            let line = match gates[i].get_command() {
                Ok(line) => line,
                Err(e) => {
                    return Err(ValidationError::Gate(e));
                },
            };
            if i >= executions.len() {
                return Ok(Step::Run(shell(line.as_str(), self.work_dir.as_str())));
            }
            match &executions[i] {
                Execution::NotStarted { reason } => {
                    return Err(
                        ValidationError::GateNotStarted { command: line, reason: reason.clone() },
                    );
                },
                Execution::Finished(o) => {
                    results.push((gates[i].name.clone(), o.success(), o.combined()));
                    assert(outcomes(results@) =~= before.push(
                        (gates@[i as int]@.name, o@.success(), o@.combined()),
                    ));
                    if !o.success() {
                        all_passed = false;
                    }
                    assert(all_passed == all_pass(outcomes(results@))) by {
                        let now = outcomes(results@);
                        if all_pass(before) && o@.success() {
                            assert forall|j: int| 0 <= j < now.len() implies (#[trigger] now[j]).1 by {
                                if j < before.len() {
                                    assert(now[j] == before[j]);
                                }
                            }
                        } else if !o@.success() {
                            assert(!now[now.len() - 1].1);
                        } else {
                            let j = choose|j: int| 0 <= j < before.len() && !(#[trigger] before[j]).1;
                            assert(now[j] == before[j]);
                        }
                    }
                },
            }
            i += 1;
        }
        Ok(Step::Done(QualityGateResult { all_passed, results }))
    }
}

impl ValidationRunner {
    /// The lines that show the verdict of validation.
    pub fn print_validation_result(&self, result: &ValidationResult) -> (r: Vec<
        crate::report::Line,
    >)
        ensures
            views(r@) == crate::report::validation_lines(result@),
    {
        crate::report::validation_report(result)
    }

    /// The lines that show the result of the quality gates.
    pub fn print_quality_gate_results(&self, result: &QualityGateResult) -> (r: Vec<
        crate::report::Line,
    >)
        ensures
            views(r@) == crate::report::gate_report_lines(result@),
    {
        crate::report::gate_report(result)
    }
}

} // verus!
