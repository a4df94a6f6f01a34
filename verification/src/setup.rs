//! What setting up a working directory creates, and what it shows.

use crate::report::{
    blank, line1, line3, mark, marked, nothing, plain, span, toned, warning, with, Line, SpanView,
    Tone,
};
use crate::text::views;
use vstd::prelude::*;

verus! {

/// What `.rwl/.gitignore` holds: the files that the loop writes.
pub const GITIGNORE_CONTENT: &'static str = "# RWL generated files\nprogress.txt\nlogs/\n";

/// The name of the file that holds the prompt template.
pub const PROMPT_FILE: &'static str = "PROMPT.md";

/// The name of the file that tells version control what to pass over.
pub const GITIGNORE_FILE: &'static str = ".gitignore";

/// What is shown where the working directory has been set up before.
pub open spec fn already_there_line() -> Seq<SpanView> {
    seq![
        warning(),
        plain(" .rwl/ already exists. Use "@),
        toned(Tone::Cyan, "rm -rf .rwl"@),
        plain(" to reinitialize."@),
    ]
}

/// What is shown when `what` has been created.
pub open spec fn created_line(what: Seq<char>) -> Seq<SpanView> {
    seq![mark(true), plain(" Created "@), toned(Tone::Cyan, what)]
}

/// What is shown once everything has been created.
pub open spec fn done_lines() -> Seq<Seq<SpanView>> {
    seq![
        Seq::empty(),
        seq![toned(Tone::GreenBold, "RWL initialized successfully!"@)],
        Seq::empty(),
        seq![plain("Next steps:"@)],
        seq![
            plain("  1. Edit "@),
            toned(Tone::Cyan, ".rwl/rwl.yml"@),
            plain(" to customize settings"@),
        ],
        seq![
            plain("  2. Edit "@),
            toned(Tone::Cyan, ".rwl/PROMPT.md"@),
            plain(" to customize the prompt"@),
        ],
        seq![
            plain("  3. Run "@),
            toned(Tone::Cyan, "rwl run --plan <path>"@),
            plain(" to start the loop"@),
        ],
    ]
}

/// The line shown where the working directory has been set up before.
pub fn already_there() -> (l: Line)
    ensures
        l@ == already_there_line(),
{
    crate::report::line4(
        span(Tone::Yellow, "⚠"),
        span(Tone::Plain, " .rwl/ already exists. Use "),
        span(Tone::Cyan, "rm -rf .rwl"),
        span(Tone::Plain, " to reinitialize."),
    )
}

/// The line shown when `what` has been created.
pub fn created(what: &str) -> (l: Line)
    ensures
        l@ == created_line(what@),
{
    line3(marked(true), span(Tone::Plain, " Created "), span(Tone::Cyan, what))
}

/// The lines shown once everything has been created.
pub fn done() -> (r: Vec<Line>)
    ensures
        views(r@) == done_lines(),
{
    let r = with(nothing(), blank());
    let r = with(r, line1(span(Tone::GreenBold, "RWL initialized successfully!")));
    let r = with(r, blank());
    let r = with(r, line1(span(Tone::Plain, "Next steps:")));
    let r = with(
        r,
        line3(
            span(Tone::Plain, "  1. Edit "),
            span(Tone::Cyan, ".rwl/rwl.yml"),
            span(Tone::Plain, " to customize settings"),
        ),
    );
    let r = with(
        r,
        line3(
            span(Tone::Plain, "  2. Edit "),
            span(Tone::Cyan, ".rwl/PROMPT.md"),
            span(Tone::Plain, " to customize the prompt"),
        ),
    );
    let r = with(
        r,
        line3(
            span(Tone::Plain, "  3. Run "),
            span(Tone::Cyan, "rwl run --plan <path>"),
            span(Tone::Plain, " to start the loop"),
        ),
    );
    assert(views(r@) =~= done_lines());
    r
}

} // verus!
