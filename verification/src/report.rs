//! What the operator is shown, as lines of toned text. The printing itself,
//! and what a tone looks like on a terminal, is left to the caller.

use crate::config::{Config, ConfigView};
use crate::progress::{IterationResult, IterationResultView};
use crate::runner::{LoopOutcome, LoopOutcomeView, Notice, NoticeView};
use crate::text::{
    decimal, lemma_views_push, lines, split_lines, to_decimal, trim, trimmed, views,
};
use crate::validation::{
    outcomes, GateOutcome, QualityGateResult, QualityGateResultView, ValidationResult,
    ValidationResultView,
};
use vstd::prelude::*;

verus! {

/// How a piece of text is set off.
#[derive(Debug, Clone, Copy, PartialEq, Eq, Structural)]
pub enum Tone {
    Plain,
    Bold,
    Green,
    GreenBold,
    Red,
    RedBold,
    Yellow,
    Cyan,
    Dimmed,
}

/// A piece of text in one tone.
#[derive(Debug)]
pub struct Span {
    pub tone: Tone,
    pub text: String,
}

pub struct SpanView {
    pub tone: Tone,
    pub text: Seq<char>,
}

impl View for Span {
    type V = SpanView;

    open spec fn view(&self) -> SpanView {
        SpanView { tone: self.tone, text: self.text@ }
    }
}

/// A line to print: its spans, one after the other.
#[derive(Debug)]
pub struct Line {
    pub spans: Vec<Span>,
}

impl View for Line {
    type V = Seq<SpanView>;

    open spec fn view(&self) -> Seq<SpanView> {
        views(self.spans@)
    }
}

/// `text` in `tone`.
pub open spec fn toned(tone: Tone, text: Seq<char>) -> SpanView {
    SpanView { tone, text }
}

/// `text` without a tone.
pub open spec fn plain(text: Seq<char>) -> SpanView {
    SpanView { tone: Tone::Plain, text }
}

/// `label` in bold behind two blanks, and `value` behind one more.
pub open spec fn labelled(label: Seq<char>, value: Seq<char>) -> Seq<SpanView> {
    seq![plain("  "@), toned(Tone::Bold, label), plain(" "@ + value)]
}

/// The number of `iterations`, behind `label`.
pub open spec fn counted(label: Seq<char>, iterations: u32) -> Seq<SpanView> {
    labelled(label, decimal(iterations as nat) + " iterations"@)
}

/// A box in `tone` around `title`.
pub open spec fn boxed(tone: Tone, title: Seq<char>) -> Seq<Seq<SpanView>> {
    seq![
        seq![toned(tone, "╔════════════════════════════════════════╗"@)],
        seq![toned(tone, title)],
        seq![toned(tone, "╚════════════════════════════════════════╝"@)],
    ]
}

/// A whole number in decimal, with a minus sign where it is negative.
pub open spec fn signed(n: int) -> Seq<char> {
    if n < 0 {
        "-"@ + decimal((-n) as nat)
    } else {
        decimal(n as nat)
    }
}

/// How the end of a run is shown: a box that names the outcome, the number
/// of iterations, and for a run that stopped or failed the reason.
pub open spec fn outcome_lines(outcome: LoopOutcomeView) -> Seq<Seq<SpanView>> {
    let blank = Seq::<SpanView>::empty();
    match outcome {
        LoopOutcomeView::Complete { iterations } => seq![blank] + boxed(
            Tone::Green,
            "║           Loop Complete!               ║"@,
        ) + seq![blank, counted("Completed in:"@, iterations), blank],
        LoopOutcomeView::MaxIterations { iterations } => seq![blank] + boxed(
            Tone::Yellow,
            "║       Max Iterations Reached           ║"@,
        ) + seq![
            blank,
            counted("Ran:"@, iterations),
            blank,
            seq![
                plain("  Consider increasing "@),
                toned(Tone::Cyan, "max_iterations"@),
                plain(" or checking progress."@),
            ],
            blank,
        ],
        LoopOutcomeView::Stopped { iterations, reason } => seq![blank] + boxed(
            Tone::Yellow,
            "║           Loop Stopped                 ║"@,
        ) + seq![blank, counted("Ran:"@, iterations), labelled("Reason:"@, reason), blank],
        LoopOutcomeView::Error { iterations, error } => seq![blank] + boxed(
            Tone::Red,
            "║              Error                     ║"@,
        ) + seq![blank, counted("Ran:"@, iterations), labelled("Error:"@, error), blank],
    }
}

/// What is shown before a run begins.
pub open spec fn banner_lines(config: ConfigView, plan: Seq<char>) -> Seq<Seq<SpanView>> {
    let blank = Seq::<SpanView>::empty();
    seq![blank] + boxed(Tone::Cyan, "║     Ralph Wiggum Loop - Starting       ║"@) + seq![
        blank,
        labelled("Plan:"@, plan),
        labelled("Model:"@, config.llm.model),
        labelled("Max iterations:"@, decimal(config.loop_config.max_iterations as nat)),
        labelled(
            "Timeout:"@,
            decimal(config.loop_config.iteration_timeout_minutes as nat) + " minutes"@,
        ),
        labelled("Validation:"@, config.validation.command),
        labelled("Quality gates:"@, decimal(config.quality_gates.len())),
        blank,
    ]
}

/// A check mark in green or a cross in red.
pub open spec fn mark(passed: bool) -> SpanView {
    if passed {
        toned(Tone::Green, "✓"@)
    } else {
        toned(Tone::Red, "✗"@)
    }
}

/// How the record of an iteration is shown, on one line.
pub open spec fn status_spans(r: IterationResultView) -> Seq<SpanView> {
    seq![
        plain("  Validation: "@),
        mark(r.validation_passed),
        plain("  Promise: "@),
        if r.promise_found {
            toned(Tone::Green, "✓"@)
        } else {
            toned(Tone::Dimmed, "-"@)
        },
        plain("  "@),
        toned(Tone::Dimmed, r.summary),
    ]
}

/// How the verdict of validation is shown: for a failure the exit code and,
/// unless it is blank, what was printed.
pub open spec fn validation_lines(v: ValidationResultView) -> Seq<Seq<SpanView>> {
    if v.passed {
        seq![seq![mark(true), plain(" Validation passed"@)]]
    } else {
        let head = seq![
            mark(false),
            plain(" Validation failed (exit code: "@ + signed(v.exit_code as int) + ")"@),
        ];
        if trim(v.output).len() > 0 {
            seq![head, seq![toned(Tone::Dimmed, v.output)]]
        } else {
            seq![head]
        }
    }
}

/// How many lines of what a failed gate printed are shown.
pub const SHOWN: usize = 5;

/// The first `n` of `ls`, each dimmed behind four blanks.
pub open spec fn excerpt(ls: Seq<Seq<char>>, n: int) -> Seq<Seq<SpanView>> {
    Seq::new(
        if ls.len() < n {
            ls.len()
        } else {
            n as nat
        },
        |i: int| seq![plain("    "@), toned(Tone::Dimmed, ls[i])],
    )
}

/// How one gate is shown: its name behind a mark, and for a failed gate the
/// first lines of what it printed, unless that is blank.
pub open spec fn gate_lines(gate: (Seq<char>, bool, Seq<char>)) -> Seq<Seq<SpanView>> {
    let head = seq![plain("  "@), mark(gate.1), plain(" "@ + gate.0)];
    if !gate.1 && trim(gate.2).len() > 0 {
        seq![head] + excerpt(lines(gate.2), SHOWN as int)
    } else {
        seq![head]
    }
}

/// How the gates are shown, one after the other.
pub open spec fn gates_lines(results: Seq<(Seq<char>, bool, Seq<char>)>) -> Seq<Seq<SpanView>>
    decreases results.len(),
{
    if results.len() == 0 {
        Seq::empty()
    } else {
        gates_lines(results.drop_last()) + gate_lines(results.last())
    }
}

/// How the result of the quality gates is shown. Only the display is cut
/// short: whether a gate passed does not depend on how much it printed.
pub open spec fn gate_report_lines(result: QualityGateResultView) -> Seq<Seq<SpanView>> {
    let blank = Seq::<SpanView>::empty();
    seq![blank, seq![toned(Tone::Bold, "Quality Gates:"@)]] + gates_lines(result.results) + seq![
        blank,
        if result.all_passed {
            seq![toned(Tone::GreenBold, "All quality gates passed!"@)]
        } else {
            seq![toned(Tone::RedBold, "Some quality gates failed."@)]
        },
    ]
}

/// `text` in `tone`.
pub fn span(tone: Tone, text: &str) -> (s: Span)
    ensures
        s@ == toned(tone, text@),
{
    Span { tone, text: text.to_string() }
}

/// The empty line.
pub fn blank() -> (l: Line)
    ensures
        l@ == Seq::<SpanView>::empty(),
{
    let spans: Vec<Span> = Vec::new();
    assert(views(spans@) =~= Seq::<SpanView>::empty());
    Line { spans }
}

/// The line of one span.
pub fn line1(a: Span) -> (l: Line)
    ensures
        l@ == seq![a@],
{
    let mut spans: Vec<Span> = Vec::new();
    spans.push(a);
    assert(views(spans@) =~= seq![a@]);
    Line { spans }
}

/// The line of two spans.
pub fn line2(a: Span, b: Span) -> (l: Line)
    ensures
        l@ == seq![a@, b@],
{
    let mut spans: Vec<Span> = Vec::new();
    spans.push(a);
    spans.push(b);
    assert(views(spans@) =~= seq![a@, b@]);
    Line { spans }
}

/// The line of three spans.
pub fn line3(a: Span, b: Span, c: Span) -> (l: Line)
    ensures
        l@ == seq![a@, b@, c@],
{
    let mut spans: Vec<Span> = Vec::new();
    spans.push(a);
    spans.push(b);
    spans.push(c);
    assert(views(spans@) =~= seq![a@, b@, c@]);
    Line { spans }
}

/// The lines `v` and after them `l`.
pub(crate) fn with(v: Vec<Line>, l: Line) -> (r: Vec<Line>)
    ensures
        views(r@) == views(v@).push(l@),
{
    let mut r = v;
    proof {
        lemma_views_push(r@, l);
    }
    r.push(l);
    r
}

/// A label and its value.
fn label(name: &str, value: &str) -> (l: Line)
    ensures
        l@ == labelled(name@, value@),
{
    let mut rest = " ".to_string();
    rest.append(value);
    line3(span(Tone::Plain, "  "), span(Tone::Bold, name), span(Tone::Plain, rest.as_str()))
}

/// A label and a number of iterations.
fn count_label(name: &str, iterations: u32) -> (l: Line)
    ensures
        l@ == counted(name@, iterations),
{
    let mut value = to_decimal(iterations as u64);
    value.append(" iterations");
    label(name, value.as_str())
}

/// A blank line and a box.
pub(crate) fn open_box(tone: Tone, title: &str) -> (r: Vec<Line>)
    ensures
        views(r@) == seq![Seq::<SpanView>::empty()] + boxed(tone, title@),
{
    let r: Vec<Line> = Vec::new();
    assert(views(r@) =~= Seq::<Seq<SpanView>>::empty());
    let r = with(r, blank());
    let r = with(r, line1(span(tone, "╔════════════════════════════════════════╗")));
    let r = with(r, line1(span(tone, title)));
    let r = with(r, line1(span(tone, "╚════════════════════════════════════════╝")));
    assert(views(r@) =~= seq![Seq::<SpanView>::empty()] + boxed(tone, title@));
    r
}

/// A whole number in decimal.
pub fn signed_decimal(n: i32) -> (r: String)
    ensures
        r@ == signed(n as int),
{
    if n < 0 {
        let mut r = "-".to_string();
        let m: i64 = -(n as i64);
        r.append(to_decimal(m as u64).as_str());
        r
    } else {
        to_decimal(n as u64)
    }
}

/// The lines that show the end of a run.
pub fn outcome_report(outcome: &LoopOutcome) -> (r: Vec<Line>)
    ensures
        views(r@) == outcome_lines(outcome@),
{
    match outcome {
        LoopOutcome::Complete { iterations } => {
            let r = open_box(Tone::Green, "║           Loop Complete!               ║");
            let r = with(r, blank());
            let r = with(r, count_label("Completed in:", *iterations));
            let r = with(r, blank());
            assert(views(r@) =~= outcome_lines(outcome@));
            r
        },
        LoopOutcome::MaxIterations { iterations } => {
            let r = open_box(Tone::Yellow, "║       Max Iterations Reached           ║");
            let r = with(r, blank());
            let r = with(r, count_label("Ran:", *iterations));
            let r = with(r, blank());
            let r = with(
                r,
                line3(
                    span(Tone::Plain, "  Consider increasing "),
                    span(Tone::Cyan, "max_iterations"),
                    span(Tone::Plain, " or checking progress."),
                ),
            );
            let r = with(r, blank());
            assert(views(r@) =~= outcome_lines(outcome@));
            r
        },
        LoopOutcome::Stopped { iterations, reason } => {
            let r = open_box(Tone::Yellow, "║           Loop Stopped                 ║");
            let r = with(r, blank());
            let r = with(r, count_label("Ran:", *iterations));
            let r = with(r, label("Reason:", reason.as_str()));
            let r = with(r, blank());
            assert(views(r@) =~= outcome_lines(outcome@));
            r
        },
        LoopOutcome::Error { iterations, error } => {
            let r = open_box(Tone::Red, "║              Error                     ║");
            let r = with(r, blank());
            let r = with(r, count_label("Ran:", *iterations));
            let r = with(r, label("Error:", error.as_str()));
            let r = with(r, blank());
            assert(views(r@) =~= outcome_lines(outcome@));
            r
        },
    }
}

/// The lines shown before a run begins.
pub fn banner(config: &Config, plan_path: &str) -> (r: Vec<Line>)
    ensures
        views(r@) == banner_lines(config@, plan_path@),
{
    let r = open_box(Tone::Cyan, "║     Ralph Wiggum Loop - Starting       ║");
    let r = with(r, blank());
    let r = with(r, label("Plan:", plan_path));
    let r = with(r, label("Model:", config.llm.model.as_str()));
    let r = with(
        r,
        label("Max iterations:", to_decimal(config.loop_config.max_iterations as u64).as_str()),
    );
    let mut minutes = to_decimal(config.loop_config.iteration_timeout_minutes as u64);
    minutes.append(" minutes");
    let r = with(r, label("Timeout:", minutes.as_str()));
    let r = with(r, label("Validation:", config.validation.command.as_str()));
    let r = with(
        r,
        label("Quality gates:", to_decimal(config.quality_gates.len() as u64).as_str()),
    );
    let r = with(r, blank());
    assert(views(r@) =~= banner_lines(config@, plan_path@));
    r
}

/// A check mark or a cross.
pub(crate) fn marked(passed: bool) -> (s: Span)
    ensures
        s@ == mark(passed),
{
    if passed {
        span(Tone::Green, "✓")
    } else {
        span(Tone::Red, "✗")
    }
}

/// The line that shows the record of an iteration.
pub fn iteration_status(result: &IterationResult) -> (l: Line)
    ensures
        l@ == status_spans(result@),
{
    let mut spans: Vec<Span> = Vec::new();
    spans.push(span(Tone::Plain, "  Validation: "));
    spans.push(marked(result.validation_passed));
    spans.push(span(Tone::Plain, "  Promise: "));
    spans.push(
        if result.promise_found {
            span(Tone::Green, "✓")
        } else {
            span(Tone::Dimmed, "-")
        },
    );
    spans.push(span(Tone::Plain, "  "));
    spans.push(span(Tone::Dimmed, result.summary.as_str()));
    assert(views(spans@) =~= status_spans(result@));
    Line { spans }
}

/// The lines that show the verdict of validation.
pub fn validation_report(result: &ValidationResult) -> (r: Vec<Line>)
    ensures
        views(r@) == validation_lines(result@),
{
    let r: Vec<Line> = Vec::new();
    assert(views(r@) =~= Seq::<Seq<SpanView>>::empty());
    if result.passed {
        let r = with(r, line2(marked(true), span(Tone::Plain, " Validation passed")));
        assert(views(r@) =~= validation_lines(result@));
        r
    } else {
        let mut text = " Validation failed (exit code: ".to_string();
        text.append(signed_decimal(result.exit_code).as_str());
        text.append(")");
        let r = with(r, line2(marked(false), span(Tone::Plain, text.as_str())));
        if !trimmed(result.output.as_str()).as_str().is_empty() {
            let r = with(r, line1(span(Tone::Dimmed, result.output.as_str())));
            assert(views(r@) =~= validation_lines(result@));
            r
        } else {
            assert(views(r@) =~= validation_lines(result@));
            r
        }
    }
}

/// The lines that show one gate, after the lines `r`.
fn add_gate(r: Vec<Line>, gate: &GateOutcome) -> (out: Vec<Line>)
    ensures
        views(out@) == views(r@) + gate_lines((gate.0@, gate.1, gate.2@)),
{
    let ghost before = views(r@);
    let mut name = " ".to_string();
    name.append(gate.0.as_str());
    let head = line3(span(Tone::Plain, "  "), marked(gate.1), span(Tone::Plain, name.as_str()));
    let mut out = with(r, head);
    if !gate.1 && !trimmed(gate.2.as_str()).as_str().is_empty() {
        let ls = split_lines(gate.2.as_str());
        let n: usize = if ls.len() < SHOWN {
            ls.len()
        } else {
            SHOWN
        };
        let mut i: usize = 0;
        assert(views(out@) =~= before + seq![head@] + excerpt(views(ls@), 0));
        while i < n
            invariant
                i <= n <= ls.len(),
                n <= SHOWN,
                views(out@) == before + seq![head@] + excerpt(views(ls@), i as int),
            decreases n - i,
        {
            let l = line2(span(Tone::Plain, "    "), span(Tone::Dimmed, ls[i].as_str()));
            assert(excerpt(views(ls@), i + 1) =~= excerpt(views(ls@), i as int).push(l@));
            out = with(out, l);
            assert(views(out@) =~= before + seq![head@] + excerpt(views(ls@), i + 1));
            i += 1;
        }
        assert(excerpt(views(ls@), n as int) =~= excerpt(views(ls@), SHOWN as int));
        assert(views(out@) =~= before + (seq![head@] + excerpt(views(ls@), SHOWN as int)));
        out
    } else {
        assert(views(out@) =~= before + seq![head@]);
        out
    }
}

/// The lines that show the result of the quality gates.
pub fn gate_report(result: &QualityGateResult) -> (r: Vec<Line>)
    ensures
        views(r@) == gate_report_lines(result@),
{
    let r: Vec<Line> = Vec::new();
    assert(views(r@) =~= Seq::<Seq<SpanView>>::empty());
    let r = with(r, blank());
    let mut r = with(r, line1(span(Tone::Bold, "Quality Gates:")));
    let ghost head = views(r@);
    let ghost all = outcomes(result.results@);
    let mut i: usize = 0;
    assert(all.take(0) =~= Seq::empty());
    assert(views(r@) =~= head + gates_lines(all.take(0)));
    while i < result.results.len()
        invariant
            i <= result.results.len(),
            all == outcomes(result.results@),
            views(r@) == head + gates_lines(all.take(i as int)),
        decreases result.results.len() - i,
    {
        let ghost upto = all.take(i + 1);
        assert(upto.drop_last() =~= all.take(i as int));
        assert(upto.last() == all[i as int]);
        r = add_gate(r, &result.results[i]);
        assert(views(r@) =~= head + gates_lines(upto));
        i += 1;
    }
    assert(all.take(all.len() as int) =~= all);
    let r = with(r, blank());
    let r = with(
        r,
        if result.all_passed {
            line1(span(Tone::GreenBold, "All quality gates passed!"))
        } else {
            line1(span(Tone::RedBold, "Some quality gates failed."))
        },
    );
    assert(views(r@) =~= gate_report_lines(result@));
    r
}

/// A warning sign in yellow.
pub open spec fn warning() -> SpanView {
    toned(Tone::Yellow, "⚠"@)
}

/// What a notice of the loop shows on standard output. The notices that
/// only move the position in the run show nothing there, and what the
/// agent wrote to standard error is not for standard output.
pub open spec fn notice_lines(notice: NoticeView) -> Seq<Seq<SpanView>> {
    let blank = Seq::<SpanView>::empty();
    match notice {
        NoticeView::Resumed { .. } => Seq::empty(),
        NoticeView::IterationStarted { .. } => Seq::empty(),
        NoticeView::AgentStarting { iteration } => seq![
            blank,
            seq![
                toned(Tone::Cyan, "→"@),
                plain(" Running iteration "@),
                toned(Tone::Bold, decimal(iteration as nat)),
                plain("..."@),
            ],
        ],
        NoticeView::AgentComplained { .. } => Seq::empty(),
        NoticeView::Committed { message } => seq![
            seq![mark(true), plain(" Committed changes: "@), toned(Tone::Dimmed, message)],
        ],
        NoticeView::CommitSkipped { error } => seq![
            seq![warning(), plain(" Nothing committed: "@), toned(Tone::Dimmed, error)],
        ],
        NoticeView::ValidationNotRun { error } => seq![
            seq![warning(), plain(" "@), toned(Tone::Dimmed, error)],
        ],
        NoticeView::IterationLogged { record } => seq![status_spans(record)],
        NoticeView::GatesStarting => seq![
            blank,
            seq![mark(true), plain(" Validation passed and completion promise found!"@)],
            seq![toned(Tone::Cyan, "→"@), plain(" Running quality gates..."@)],
        ],
        NoticeView::GatesFinished { result } => gate_report_lines(result),
        NoticeView::GatesFailed => seq![
            seq![warning(), plain(" Quality gates failed, continuing loop..."@)],
        ],
        NoticeView::GatesAborted { error } => seq![
            seq![mark(false), plain(" "@ + error)],
            seq![warning(), plain(" Quality gates failed, continuing loop..."@)],
        ],
    }
}

/// The line of four spans.
pub fn line4(a: Span, b: Span, c: Span, d: Span) -> (l: Line)
    ensures
        l@ == seq![a@, b@, c@, d@],
{
    let mut spans: Vec<Span> = Vec::new();
    spans.push(a);
    spans.push(b);
    spans.push(c);
    spans.push(d);
    assert(views(spans@) =~= seq![a@, b@, c@, d@]);
    Line { spans }
}

/// No lines.
pub fn nothing() -> (r: Vec<Line>)
    ensures
        views(r@) == Seq::<Seq<SpanView>>::empty(),
{
    let r: Vec<Line> = Vec::new();
    assert(views(r@) =~= Seq::<Seq<SpanView>>::empty());
    r
}

/// The lines that show a notice of the loop.
pub fn notice_report(notice: &Notice) -> (r: Vec<Line>)
    ensures
        views(r@) == notice_lines(notice@),
{
    match notice {
        Notice::Resumed { .. } => nothing(),
        Notice::IterationStarted { .. } => nothing(),
        Notice::AgentStarting { iteration } => {
            let r = with(nothing(), blank());
            let r = with(
                r,
                line4(
                    span(Tone::Cyan, "→"),
                    span(Tone::Plain, " Running iteration "),
                    span(Tone::Bold, to_decimal(*iteration as u64).as_str()),
                    span(Tone::Plain, "..."),
                ),
            );
            assert(views(r@) =~= notice_lines(notice@));
            r
        },
        Notice::AgentComplained { .. } => nothing(),
        Notice::Committed { message } => {
            let r = with(
                nothing(),
                line3(
                    marked(true),
                    span(Tone::Plain, " Committed changes: "),
                    span(Tone::Dimmed, message.as_str()),
                ),
            );
            assert(views(r@) =~= notice_lines(notice@));
            r
        },
        Notice::CommitSkipped { error } => {
            let r = with(
                nothing(),
                line3(
                    span(Tone::Yellow, "⚠"),
                    span(Tone::Plain, " Nothing committed: "),
                    span(Tone::Dimmed, error.as_str()),
                ),
            );
            assert(views(r@) =~= notice_lines(notice@));
            r
        },
        Notice::ValidationNotRun { error } => {
            let r = with(
                nothing(),
                line3(
                    span(Tone::Yellow, "⚠"),
                    span(Tone::Plain, " "),
                    span(Tone::Dimmed, error.as_str()),
                ),
            );
            assert(views(r@) =~= notice_lines(notice@));
            r
        },
        Notice::IterationLogged { record } => {
            let r = with(nothing(), iteration_status(record));
            assert(views(r@) =~= notice_lines(notice@));
            r
        },
        Notice::GatesStarting => {
            let r = with(nothing(), blank());
            let r = with(
                r,
                line2(
                    marked(true),
                    span(Tone::Plain, " Validation passed and completion promise found!"),
                ),
            );
            let r = with(
                r,
                line2(span(Tone::Cyan, "→"), span(Tone::Plain, " Running quality gates...")),
            );
            assert(views(r@) =~= notice_lines(notice@));
            r
        },
        Notice::GatesFinished { result } => gate_report(result),
        Notice::GatesFailed => {
            let r = with(
                nothing(),
                line2(
                    span(Tone::Yellow, "⚠"),
                    span(Tone::Plain, " Quality gates failed, continuing loop..."),
                ),
            );
            assert(views(r@) =~= notice_lines(notice@));
            r
        },
        Notice::GatesAborted { error } => {
            let mut text = " ".to_string();
            text.append(error.as_str());
            let r = with(nothing(), line2(marked(false), span(Tone::Plain, text.as_str())));
            let r = with(
                r,
                line2(
                    span(Tone::Yellow, "⚠"),
                    span(Tone::Plain, " Quality gates failed, continuing loop..."),
                ),
            );
            assert(views(r@) =~= notice_lines(notice@));
            r
        },
    }
}

} // verus!
