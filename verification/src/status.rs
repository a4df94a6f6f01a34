//! What a status display takes from the progress store and from the
//! commit log.

use crate::config::{Config, ConfigView};
use crate::progress::{Progress, ProgressView, Timestamp};
use crate::report::{
    blank, boxed, line1, line2, line3, mark, marked, nothing, open_box, plain, span, toned,
    warning, with, Line, SpanView, Tone,
};
use crate::text::{
    contains, decimal, find, has_prefix, lemma_views_push, lines, split_lines, starts_with,
    to_decimal, views,
};
use vstd::prelude::*;

verus! {

/// How many lines of activity are shown.
pub const RECENT: usize = 10;

/// What a line of the store says.
#[derive(Debug, Clone, Copy, PartialEq, Eq, Structural)]
pub enum ActivityKind {
    /// The beginning of a record.
    Heading,
    /// Something passed.
    Passed,
    /// Something failed.
    Failed,
    /// Anything else.
    Other,
}

/// One line of activity.
#[derive(Debug)]
pub struct Activity {
    pub kind: ActivityKind,
    pub text: String,
}

pub struct ActivityView {
    pub kind: ActivityKind,
    pub text: Seq<char>,
}

impl View for Activity {
    type V = ActivityView;

    open spec fn view(&self) -> ActivityView {
        ActivityView { kind: self.kind, text: self.text@ }
    }
}

/// The lines of the store that a status display shows: the beginnings of
/// records and what they say of validation and of the signal.
pub open spec fn telling(line: Seq<char>) -> bool {
    starts_with(line, "##"@) || starts_with(line, "Validation:"@) || starts_with(
        line,
        "Promise:"@,
    )
}

/// What `line` says.
pub open spec fn kind_of(line: Seq<char>) -> ActivityKind {
    if starts_with(line, "##"@) {
        ActivityKind::Heading
    } else if contains(line, "PASSED"@) {
        ActivityKind::Passed
    } else if contains(line, "FAILED"@) {
        ActivityKind::Failed
    } else {
        ActivityKind::Other
    }
}

/// The telling lines among `ls`, in order.
pub open spec fn told(ls: Seq<Seq<char>>) -> Seq<ActivityView>
    decreases ls.len(),
{
    if ls.len() == 0 {
        Seq::empty()
    } else if telling(ls.last()) {
        told(ls.drop_last()).push(ActivityView { kind: kind_of(ls.last()), text: ls.last() })
    } else {
        told(ls.drop_last())
    }
}

/// The last `n` of `s`, or all of `s` where it has fewer.
pub open spec fn last_of<T>(s: Seq<T>, n: int) -> Seq<T> {
    if s.len() > n {
        s.skip(s.len() - n)
    } else {
        s
    }
}

/// The recent activity in a store with the text `content`: its last ten
/// telling lines.
pub open spec fn activity(content: Seq<char>) -> Seq<ActivityView> {
    last_of(told(lines(content)), RECENT as int)
}

/// What `line` says.
pub fn classify(line: &str) -> (k: ActivityKind)
    ensures
        k == kind_of(line@),
{
    if has_prefix(line, "##") {
        ActivityKind::Heading
    } else if find(line, "PASSED") {
        ActivityKind::Passed
    } else if find(line, "FAILED") {
        ActivityKind::Failed
    } else {
        ActivityKind::Other
    }
}

/// The recent activity in a store.
pub fn recent_activity(content: &str) -> (r: Vec<Activity>)
    ensures
        views(r@) == activity(content@),
{
    let ls = split_lines(content);
    let mut all: Vec<Activity> = Vec::new();
    let mut i: usize = 0;
    assert(views(ls@).take(0) =~= Seq::empty());
    assert(views(all@) =~= Seq::empty());
    while i < ls.len()
        invariant
            i <= ls.len(),
            views(all@) == told(views(ls@).take(i as int)),
        decreases ls.len() - i,
    {
        let ghost upto = views(ls@).take(i + 1);
        assert(upto.drop_last() =~= views(ls@).take(i as int));
        assert(upto.last() == ls@[i as int]@);
        let line = ls[i].as_str();
        if has_prefix(line, "##") || has_prefix(line, "Validation:") || has_prefix(
            line,
            "Promise:",
        ) {
            let a = Activity { kind: classify(line), text: ls[i].clone() };
            proof {
                lemma_views_push(all@, a);
            }
            all.push(a);
        }
        i += 1;
    }
    assert(views(ls@).take(ls@.len() as int) =~= views(ls@));
    let mut r: Vec<Activity> = Vec::new();
    let from: usize = if all.len() > RECENT {
        all.len() - RECENT
    } else {
        0
    };
    let mut j: usize = from;
    assert(views(r@) =~= views(all@).subrange(from as int, j as int));
    while j < all.len()
        invariant
            from <= j <= all.len(),
            views(r@) == views(all@).subrange(from as int, j as int),
        decreases all.len() - j,
    {
        let a = Activity { kind: all[j].kind, text: all[j].text.clone() };
        proof {
            lemma_views_push(r@, a);
            assert(views(all@).subrange(from as int, j + 1) =~= views(all@).subrange(
                from as int,
                j as int,
            ).push(a@));
        }
        r.push(a);
        j += 1;
    }
    assert(views(all@).subrange(from as int, all@.len() as int) =~= last_of(
        views(all@),
        RECENT as int,
    ));
    r
}

/// Whether a line of the commit log is a commit of the loop.
pub fn is_loop_commit(line: &str) -> (b: bool)
    ensures
        b == contains(line@, "rwl:"@),
{
    find(line, "rwl:")
}

/// What is shown where the working directory is not set up.
pub open spec fn not_initialized_line() -> Seq<SpanView> {
    seq![
        warning(),
        plain(" Not initialized. Run "@),
        toned(Tone::Cyan, "rwl init"@),
        plain(" first."@),
    ]
}

/// The title of the status display, and the configuration.
pub open spec fn heading_lines(config: ConfigView) -> Seq<Seq<SpanView>> {
    let blank = Seq::<SpanView>::empty();
    seq![blank] + boxed(Tone::Cyan, "║         RWL Status                     ║"@) + seq![
        blank,
        seq![toned(Tone::Bold, "Configuration:"@)],
        seq![plain("  Model: "@), toned(Tone::Cyan, config.llm.model)],
        seq![plain("  Max iterations: "@ + decimal(config.loop_config.max_iterations as nat))],
        seq![plain("  Validation: "@), toned(Tone::Dimmed, config.validation.command)],
        seq![plain("  Quality gates: "@ + decimal(config.quality_gates.len()))],
        blank,
    ]
}

/// What is shown where there is no progress store yet.
pub open spec fn no_progress_lines() -> Seq<Seq<SpanView>> {
    seq![
        seq![toned(Tone::Bold, "Progress:"@)],
        seq![
            plain("  "@),
            toned(Tone::Dimmed, "·"@),
            plain(" No progress yet. Run "@),
            toned(Tone::Cyan, "rwl run --plan <path>"@),
            plain(" to start."@),
        ],
        Seq::empty(),
    ]
}

/// `line`, where there is one.
pub open spec fn maybe(line: Option<Seq<SpanView>>) -> Seq<Seq<SpanView>> {
    match line {
        Some(l) => seq![l],
        None => Seq::empty(),
    }
}

/// The instant at which the store was started, as it is shown.
pub open spec fn started_line(started: Option<Timestamp>) -> Option<Seq<SpanView>> {
    match started {
        Some(t) => match t.stamp() {
            Some(text) => Some(seq![plain("  Started: "@ + text)]),
            None => None,
        },
        None => None,
    }
}

/// What is shown of a progress store with `count` records.
pub open spec fn progress_lines(progress: ProgressView, count: u32) -> Seq<Seq<SpanView>> {
    seq![seq![toned(Tone::Bold, "Progress:"@)]] + maybe(started_line(progress.started)) + maybe(
        match progress.plan_path {
            Some(p) => Some(seq![plain("  Plan: "@), toned(Tone::Cyan, p)]),
            None => None,
        },
    ) + seq![seq![plain("  Iterations: "@), toned(Tone::Bold, decimal(count as nat))]] + maybe(
        match progress.last_status {
            Some(t) => Some(seq![plain("  Status: "@ + t)]),
            None => None,
        },
    ) + seq![Seq::empty()]
}

/// How a line of activity is shown.
pub open spec fn activity_line(a: ActivityView) -> Seq<SpanView> {
    match a.kind {
        ActivityKind::Heading => seq![plain("  "@), toned(Tone::Cyan, a.text)],
        ActivityKind::Passed => seq![plain("    "@), toned(Tone::Green, a.text)],
        ActivityKind::Failed => seq![plain("    "@), toned(Tone::Red, a.text)],
        ActivityKind::Other => seq![plain("    "@), toned(Tone::Dimmed, a.text)],
    }
}

/// What is shown of the recent activity: nothing where there is none.
pub open spec fn activity_lines(recent: Seq<ActivityView>) -> Seq<Seq<SpanView>> {
    if recent.len() == 0 {
        Seq::empty()
    } else {
        seq![seq![toned(Tone::Bold, "Recent Activity:"@)]] + Seq::new(
            recent.len(),
            |i: int| activity_line(recent[i]),
        ) + seq![Seq::empty()]
    }
}

/// How a line of the commit log is shown: the commits of the loop stand out.
pub open spec fn commit_line(line: Seq<char>) -> Seq<SpanView> {
    if contains(line, "rwl:"@) {
        seq![plain("  "@), toned(Tone::Cyan, line)]
    } else {
        seq![plain("  "@), toned(Tone::Dimmed, line)]
    }
}

/// What is shown of the repository: whether it has changes, and its
/// recent commits, if any.
pub open spec fn git_lines(changed: bool, commits: Seq<Seq<char>>) -> Seq<Seq<SpanView>> {
    seq![
        seq![toned(Tone::Bold, "Git Status:"@)],
        if changed {
            seq![plain("  "@), warning(), plain(" Uncommitted changes"@)]
        } else {
            seq![plain("  "@), mark(true), plain(" Clean"@)]
        },
    ] + (if commits.len() == 0 {
        Seq::empty()
    } else {
        seq![Seq::empty(), seq![toned(Tone::Bold, "Recent Commits:"@)]] + Seq::new(
            commits.len(),
            |i: int| commit_line(commits[i]),
        )
    }) + seq![Seq::empty()]
}

/// The line shown where the working directory is not set up.
pub fn not_initialized() -> (l: Line)
    ensures
        l@ == not_initialized_line(),
{
    crate::report::line4(
        span(Tone::Yellow, "⚠"),
        span(Tone::Plain, " Not initialized. Run "),
        span(Tone::Cyan, "rwl init"),
        span(Tone::Plain, " first."),
    )
}

/// The title of the status display, and the configuration.
pub fn heading(config: &Config) -> (r: Vec<Line>)
    ensures
        views(r@) == heading_lines(config@),
{
    let r = open_box(Tone::Cyan, "║         RWL Status                     ║");
    let r = with(r, blank());
    let r = with(r, line1(span(Tone::Bold, "Configuration:")));
    let r = with(
        r,
        line2(span(Tone::Plain, "  Model: "), span(Tone::Cyan, config.llm.model.as_str())),
    );
    let mut most = "  Max iterations: ".to_string();
    most.append(to_decimal(config.loop_config.max_iterations as u64).as_str());
    let r = with(r, line1(span(Tone::Plain, most.as_str())));
    let r = with(
        r,
        line2(
            span(Tone::Plain, "  Validation: "),
            span(Tone::Dimmed, config.validation.command.as_str()),
        ),
    );
    let mut gates = "  Quality gates: ".to_string();
    gates.append(to_decimal(config.quality_gates.len() as u64).as_str());
    let r = with(r, line1(span(Tone::Plain, gates.as_str())));
    let r = with(r, blank());
    assert(views(r@) =~= heading_lines(config@));
    r
}

/// The lines shown where there is no progress store yet.
pub fn no_progress() -> (r: Vec<Line>)
    ensures
        views(r@) == no_progress_lines(),
{
    let r = with(nothing(), line1(span(Tone::Bold, "Progress:")));
    let mut spans: Vec<crate::report::Span> = Vec::new();
    spans.push(span(Tone::Plain, "  "));
    spans.push(span(Tone::Dimmed, "·"));
    spans.push(span(Tone::Plain, " No progress yet. Run "));
    spans.push(span(Tone::Cyan, "rwl run --plan <path>"));
    spans.push(span(Tone::Plain, " to start."));
    assert(views(spans@) =~= no_progress_lines()[1]);
    let r = with(r, Line { spans });
    let r = with(r, blank());
    assert(views(r@) =~= no_progress_lines());
    r
}

/// The lines shown of a progress store with `count` records.
pub fn progress_report(progress: &Progress, count: u32) -> (r: Vec<Line>)
    ensures
        views(r@) == progress_lines(progress@, count),
{
    let mut r = with(nothing(), line1(span(Tone::Bold, "Progress:")));
    let ghost head = seq![seq![toned(Tone::Bold, "Progress:"@)]];
    assert(views(r@) =~= head);
    let ghost first = maybe(started_line(progress.started));
    match progress.started {
        Some(t) => match t.format() {
            Some(text) => {
                let mut line = "  Started: ".to_string();
                line.append(text.as_str());
                r = with(r, line1(span(Tone::Plain, line.as_str())));
            },
            None => {},
        },
        None => {},
    }
    assert(views(r@) =~= head + first);
    let ghost second = maybe(
        match progress@.plan_path {
            Some(p) => Some(seq![plain("  Plan: "@), toned(Tone::Cyan, p)]),
            None => None,
        },
    );
    match &progress.plan_path {
        Some(p) => {
            r = with(r, line2(span(Tone::Plain, "  Plan: "), span(Tone::Cyan, p.as_str())));
        },
        None => {},
    }
    assert(views(r@) =~= head + first + second);
    r = with(
        r,
        line2(
            span(Tone::Plain, "  Iterations: "),
            span(Tone::Bold, to_decimal(count as u64).as_str()),
        ),
    );
    let ghost third = seq![
        seq![plain("  Iterations: "@), toned(Tone::Bold, decimal(count as nat))],
    ];
    assert(views(r@) =~= head + first + second + third);
    let ghost fourth = maybe(
        match progress@.last_status {
            Some(t) => Some(seq![plain("  Status: "@ + t)]),
            None => None,
        },
    );
    match &progress.last_status {
        Some(t) => {
            let mut line = "  Status: ".to_string();
            line.append(t.as_str());
            r = with(r, line1(span(Tone::Plain, line.as_str())));
        },
        None => {},
    }
    assert(views(r@) =~= head + first + second + third + fourth);
    r = with(r, blank());
    assert(views(r@) =~= progress_lines(progress@, count));
    r
}

/// The lines shown of the recent activity.
pub fn activity_report(recent: &Vec<Activity>) -> (r: Vec<Line>)
    ensures
        views(r@) == activity_lines(views(recent@)),
{
    if recent.len() == 0 {
        return nothing();
    }
    let mut r = with(nothing(), line1(span(Tone::Bold, "Recent Activity:")));
    let ghost head = seq![seq![toned(Tone::Bold, "Recent Activity:"@)]];
    let ghost all = views(recent@);
    let mut i: usize = 0;
    assert(views(r@) =~= head + Seq::new(0, |k: int| activity_line(all[k])));
    while i < recent.len()
        invariant
            i <= recent.len(),
            all == views(recent@),
            views(r@) == head + Seq::new(i as nat, |k: int| activity_line(all[k])),
        decreases recent.len() - i,
    {
        let a = &recent[i];
        let text = a.text.as_str();
        let line = match a.kind {
            ActivityKind::Heading => line2(span(Tone::Plain, "  "), span(Tone::Cyan, text)),
            ActivityKind::Passed => line2(span(Tone::Plain, "    "), span(Tone::Green, text)),
            ActivityKind::Failed => line2(span(Tone::Plain, "    "), span(Tone::Red, text)),
            ActivityKind::Other => line2(span(Tone::Plain, "    "), span(Tone::Dimmed, text)),
        };
        assert(line@ == activity_line(all[i as int]));
        r = with(r, line);
        assert(views(r@) =~= head + Seq::new((i + 1) as nat, |k: int| activity_line(all[k])));
        i += 1;
    }
    r = with(r, blank());
    assert(views(r@) =~= activity_lines(all));
    r
}

/// The lines shown of the repository.
pub fn git_report(changed: bool, commits: &Vec<String>) -> (r: Vec<Line>)
    ensures
        views(r@) == git_lines(changed, views(commits@)),
{
    let r = with(nothing(), line1(span(Tone::Bold, "Git Status:")));
    let mut r = with(
        r,
        if changed {
            line3(
                span(Tone::Plain, "  "),
                span(Tone::Yellow, "⚠"),
                span(Tone::Plain, " Uncommitted changes"),
            )
        } else {
            line3(span(Tone::Plain, "  "), marked(true), span(Tone::Plain, " Clean"))
        },
    );
    let ghost head = views(r@);
    let ghost all = views(commits@);
    if commits.len() > 0 {
        r = with(r, blank());
        r = with(r, line1(span(Tone::Bold, "Recent Commits:")));
        let ghost top = views(r@);
        let mut i: usize = 0;
        assert(views(r@) =~= top + Seq::new(0, |k: int| commit_line(all[k])));
        while i < commits.len()
            invariant
                i <= commits.len(),
                all == views(commits@),
                views(r@) == top + Seq::new(i as nat, |k: int| commit_line(all[k])),
            decreases commits.len() - i,
        {
            let text = commits[i].as_str();
            let line = if is_loop_commit(text) {
                line2(span(Tone::Plain, "  "), span(Tone::Cyan, text))
            } else {
                line2(span(Tone::Plain, "  "), span(Tone::Dimmed, text))
            };
            assert(line@ == commit_line(all[i as int]));
            r = with(r, line);
            assert(views(r@) =~= top + Seq::new((i + 1) as nat, |k: int| commit_line(all[k])));
            i += 1;
        }
    }
    r = with(r, blank());
    assert(views(r@) =~= git_lines(changed, all));
    r
}

} // verus!
