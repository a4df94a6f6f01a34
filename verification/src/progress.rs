//! The progress store: an append-only text with a header and one record per
//! iteration. The number of iterations is never stored; it is the number of
//! records in the text, and a record is a line that begins with the marker.
//!
//! A record is appended on a line of its own, however the store ends: a
//! store may have been cut or written into by hand, and may end in an open
//! line.
//!
//! The store is held here as a value. Who owns the file reads it into a
//! [`ProgressTracker`] and writes out what `init` and `log_iteration` hand
//! back.

use crate::config::text_of;
use crate::text::{
    chars_of, contains, count, decimal, first_newline, has_prefix, lemma_count_concat, lemma_count_none,
    lemma_decimal_digits, lemma_first_newline_found, lemma_occurrence_begins,
    lemma_occurrence_ends_before, lemma_occurrence_in_second, lemma_occurrence_second, lines,
    occurs_at, split_lines, starts_with, strip_cr, strip_prefixes, strip_suffixes, to_decimal,
    trim, trimmed, unbroken, views, without_prefixes, without_suffixes,
};
use std::fmt::Write;
use vstd::prelude::*;

verus! {

/// The text that marks a record.
pub const MARKER: &'static str = "## Iteration";

/// How an instant is written into the store.
pub const STAMP_FORMAT: &'static str = "%Y-%m-%d %H:%M:%S UTC";

/// How the instant of the header is read back, once its zone has been
/// written as an offset.
pub const STARTED_FORMAT: &'static str = "%Y-%m-%d %H:%M:%S %z";

/// An instant: seconds since the Unix epoch, and nanoseconds within the second.
#[derive(Debug, Clone, Copy, PartialEq, Eq, Structural)]
pub struct Timestamp {
    pub secs: i64,
    pub nanos: u32,
}

/// What `chrono::DateTime::parse_from_str` gives for `text` and `format`:
/// the instant as seconds and nanoseconds, or nothing where it reports an error.
pub uninterp spec fn parsed_instant(text: Seq<char>, format: Seq<char>) -> Option<(i64, u32)>;

/// What `chrono` writes for the instant `secs`, `nanos` in universal time
/// under `format`: nothing where `chrono::DateTime::from_timestamp` has no
/// such instant or the format cannot be written.
pub uninterp spec fn formatted_instant(secs: i64, nanos: u32, format: Seq<char>) -> Option<
    Seq<char>,
>;

/// Calls `chrono::DateTime::parse_from_str` and hands back the instant it
/// found as `timestamp()` and `timestamp_subsec_nanos()`. The contract only
/// names the result: the same text and format always give the same instant.
#[verifier::external_body]
fn parse_instant(text: &str, format: &str) -> (r: Option<(i64, u32)>)
    ensures
        r == parsed_instant(text@, format@),
{
    match chrono::DateTime::parse_from_str(text, format) {
        Ok(t) => Some((t.timestamp(), t.timestamp_subsec_nanos())),
        Err(_) => None,
    }
}

/// Calls `chrono::DateTime::from_timestamp` and writes the instant with
/// `chrono::DateTime::format`. The contract only names the result: the same
/// instant and format always give the same text.
#[verifier::external_body]
fn format_instant(secs: i64, nanos: u32, format: &str) -> (r: Option<String>)
    ensures
        text_of(r) == formatted_instant(secs, nanos, format@),
{
    let t = chrono::DateTime::from_timestamp(secs, nanos)?;
    let mut out = String::new();
    match write!(out, "{}", t.format(format)) {
        Ok(()) => Some(out),
        Err(_) => None,
    }
}

impl Timestamp {
    /// The instant as the store writes it.
    pub open spec fn stamp(self) -> Option<Seq<char>> {
        formatted_instant(self.secs, self.nanos, STAMP_FORMAT@)
    }

    /// The instant as the store writes it, where it can be written.
    pub fn format(&self) -> (r: Option<String>)
        ensures
            text_of(r) == self.stamp(),
    {
        format_instant(self.secs, self.nanos, STAMP_FORMAT)
    }
}

/// The outcome of one iteration, as it is recorded.
#[derive(Debug)]
pub struct IterationResult {
    pub iteration: u32,
    pub validation_passed: bool,
    pub promise_found: bool,
    pub summary: String,
}

pub struct IterationResultView {
    pub iteration: u32,
    pub validation_passed: bool,
    pub promise_found: bool,
    pub summary: Seq<char>,
}

impl View for IterationResult {
    type V = IterationResultView;

    open spec fn view(&self) -> IterationResultView {
        IterationResultView {
            iteration: self.iteration,
            validation_passed: self.validation_passed,
            promise_found: self.promise_found,
            summary: self.summary@,
        }
    }
}

impl Clone for IterationResult {
    fn clone(&self) -> (r: Self)
        ensures
            r@ == self@,
    {
        IterationResult {
            iteration: self.iteration,
            validation_passed: self.validation_passed,
            promise_found: self.promise_found,
            summary: self.summary.clone(),
        }
    }
}

/// One record of the store, read back.
#[derive(Debug)]
pub struct IterationLog {
    pub iteration: u32,
    pub timestamp: Timestamp,
    pub validation_passed: bool,
    pub promise_found: bool,
    pub summary: String,
}

/// What a reading of the store gives.
#[derive(Debug)]
pub struct Progress {
    pub started: Option<Timestamp>,
    pub plan_path: Option<String>,
    pub iterations: Vec<IterationLog>,
    pub last_status: Option<String>,
}

pub struct ProgressView {
    pub started: Option<Timestamp>,
    pub plan_path: Option<Seq<char>>,
    pub iterations: nat,
    pub last_status: Option<Seq<char>>,
}

impl View for Progress {
    type V = ProgressView;

    /// The header fields, the number of records read back, and the status line.
    open spec fn view(&self) -> ProgressView {
        ProgressView {
            started: self.started,
            plan_path: text_of(self.plan_path),
            iterations: self.iterations@.len(),
            last_status: text_of(self.last_status),
        }
    }
}

/// Why the store was not written.
#[derive(Debug, Clone, Copy, PartialEq, Eq, Structural)]
pub enum ProgressError {
    /// The instant cannot be written as a date and a time.
    Timestamp,
}

/// The header of a store that was started at `started` for the plan `plan`.
pub open spec fn header(started: Seq<char>, plan: Seq<char>) -> Seq<char> {
    "# RWL Progress Log\n# Started: "@ + started + "\n# Plan: "@ + plan
        + "\n# ----------------------------------------\n\n"@
}

/// `PASSED` or `FAILED`.
pub open spec fn validation_word(passed: bool) -> Seq<char> {
    if passed {
        "PASSED"@
    } else {
        "FAILED"@
    }
}

/// `FOUND` or `NOT FOUND`.
pub open spec fn promise_word(found: bool) -> Seq<char> {
    if found {
        "FOUND"@
    } else {
        "NOT FOUND"@
    }
}

/// What follows the marker in the record of `r`, written at `stamp`.
pub open spec fn entry_body(r: IterationResultView, stamp: Seq<char>) -> Seq<char> {
    " "@ + decimal(r.iteration as nat) + "\nTimestamp: "@ + stamp + "\nValidation: "@
        + validation_word(r.validation_passed) + "\nPromise: "@ + promise_word(r.promise_found)
        + "\nSummary: "@ + r.summary + "\n\n"@
}

/// The record of `r`, written at `stamp`.
pub open spec fn entry(r: IterationResultView, stamp: Seq<char>) -> Seq<char> {
    MARKER@ + entry_body(r, stamp)
}

/// The last of `ls` that begins with `prefix`.
pub open spec fn last_with_prefix(ls: Seq<Seq<char>>, prefix: Seq<char>) -> Option<Seq<char>>
    decreases ls.len(),
{
    if ls.len() == 0 {
        None
    } else if starts_with(ls.last(), prefix) {
        Some(ls.last())
    } else {
        last_with_prefix(ls.drop_last(), prefix)
    }
}

/// The value of the header field `prefix`: what the last line that begins
/// with `prefix` holds after it, without white space around it.
pub open spec fn field(ls: Seq<Seq<char>>, prefix: Seq<char>) -> Option<Seq<char>> {
    match last_with_prefix(ls, prefix) {
        Some(line) => Some(trim(strip_prefixes(line, prefix))),
        None => None,
    }
}

/// The text handed to the date parser for the value `date` of the field
/// `# Started:`: the zone `UTC` gives way to the offset `+0000`.
pub open spec fn started_text(date: Seq<char>) -> Seq<char> {
    strip_suffixes(date, " UTC"@) + " +0000"@
}

/// The instant that the parsed header field stands for.
pub open spec fn started_of(date: Option<Seq<char>>) -> Option<Timestamp> {
    match date {
        Some(d) => match parsed_instant(started_text(d), STARTED_FORMAT@) {
            Some((secs, nanos)) => Some(Timestamp { secs, nanos }),
            None => None,
        },
        None => None,
    }
}

/// The number of `ls` that begin with the marker.
pub open spec fn marked(ls: Seq<Seq<char>>) -> nat
    decreases ls.len(),
{
    if ls.len() == 0 {
        0
    } else {
        marked(ls.drop_last()) + if starts_with(ls.last(), MARKER@) {
            1nat
        } else {
            0nat
        }
    }
}

/// The number of records in a store: the number of its lines that begin
/// with the marker, as far as 32 bits hold it. The marker inside a line,
/// as in a summary that quotes it, is no record.
pub open spec fn records(content: Option<Seq<char>>) -> u32 {
    match content {
        Some(c) => marked(lines(c)) as u32,
        None => 0,
    }
}

/// The status line for `n` records.
pub open spec fn status(n: u32) -> Option<Seq<char>> {
    if n > 0 {
        Some(decimal(n as nat) + " iterations completed"@)
    } else {
        None
    }
}

/// What a reading of a store with the text `content` gives. A store that is
/// not there reads as an empty one. No line is an error: a field is taken
/// from the last line that names it, wherever it stands, and a date that
/// does not parse leaves the field empty.
pub open spec fn reading(content: Option<Seq<char>>) -> ProgressView {
    match content {
        Some(c) => ProgressView {
            started: started_of(field(lines(c), "# Started:"@)),
            plan_path: field(lines(c), "# Plan:"@),
            iterations: 0,
            last_status: status(records(content)),
        },
        None => ProgressView { started: None, plan_path: None, iterations: 0, last_status: None },
    }
}

/// The header fields of a store, as texts.
#[derive(Debug)]
pub struct Header {
    pub started: Option<String>,
    pub plan_path: Option<String>,
}

/// The value of the header field `prefix` among `ls`.
fn field_of(ls: &Vec<String>, prefix: &str) -> (r: Option<String>)
    ensures
        text_of(r) == field(views(ls@), prefix@),
{
    let mut r: Option<String> = None;
    let mut i: usize = 0;
    assert(views(ls@).take(0) =~= Seq::empty());
    while i < ls.len()
        invariant
            i <= ls.len(),
            text_of(r) == field(views(ls@).take(i as int), prefix@),
        decreases ls.len() - i,
    {
        let ghost upto = views(ls@).take(i + 1);
        assert(upto.drop_last() =~= views(ls@).take(i as int));
        assert(upto.last() == ls@[i as int]@);
        if has_prefix(ls[i].as_str(), prefix) {
            let rest = without_prefixes(ls[i].as_str(), prefix);
            r = Some(trimmed(rest.as_str()));
        }
        i += 1;
    }
    assert(views(ls@).take(ls@.len() as int) =~= views(ls@));
    r
}

/// The header fields in `content`.
pub fn read_header(content: &str) -> (h: Header)
    ensures
        text_of(h.started) == field(lines(content@), "# Started:"@),
        text_of(h.plan_path) == field(lines(content@), "# Plan:"@),
{
    let ls = split_lines(content);
    Header { started: field_of(&ls, "# Started:"), plan_path: field_of(&ls, "# Plan:") }
}

/// The instant that the value `date` of the field `# Started:` stands for.
pub fn read_started(date: &Option<String>) -> (r: Option<Timestamp>)
    ensures
        r == started_of(text_of(*date)),
{
    match date {
        Some(d) => {
            let mut text = without_suffixes(d.as_str(), " UTC");
            text.append(" +0000");
            match parse_instant(text.as_str(), STARTED_FORMAT) {
                Some((secs, nanos)) => Some(Timestamp { secs, nanos }),
                None => None,
            }
        },
        None => None,
    }
}

/// The number of lines of `content` that begin with the marker, as far as
/// 32 bits hold it.
pub fn count_records(content: &str) -> (n: u32)
    ensures
        n == records(Some(content@)),
{
    let ls = split_lines(content);
    let mut n: usize = 0;
    let mut i: usize = 0;
    assert(views(ls@).take(0) =~= Seq::empty());
    while i < ls.len()
        invariant
            i <= ls.len(),
            n <= i,
            n == marked(views(ls@).take(i as int)),
        decreases ls.len() - i,
    {
        let ghost upto = views(ls@).take(i + 1);
        assert(upto.drop_last() =~= views(ls@).take(i as int));
        assert(upto.last() == ls@[i as int]@);
        if has_prefix(ls[i].as_str(), MARKER) {
            n += 1;
        }
        i += 1;
    }
    assert(views(ls@).take(ls@.len() as int) =~= views(ls@));
    #[verifier::truncate]
    (n as u32)
}

/// The status line for `n` records.
pub fn status_line(n: u32) -> (r: Option<String>)
    ensures
        text_of(r) == status(n),
{
    if n > 0 {
        let mut s = to_decimal(n as u64);
        s.append(" iterations completed");
        Some(s)
    } else {
        None
    }
}

/// The header of a store.
pub fn render_header(started: &str, plan_path: &str) -> (r: String)
    ensures
        r@ == header(started@, plan_path@),
{
    let mut r = "# RWL Progress Log\n# Started: ".to_string();
    r.append(started);
    r.append("\n# Plan: ");
    r.append(plan_path);
    r.append("\n# ----------------------------------------\n\n");
    r
}

/// The record of `result`, written at `stamp`.
pub fn render_entry(result: &IterationResult, stamp: &str) -> (r: String)
    ensures
        r@ == entry(result@, stamp@),
{
    let mut r = MARKER.to_string();
    let ghost m = r@;
    r.append(" ");
    r.append(to_decimal(result.iteration as u64).as_str());
    r.append("\nTimestamp: ");
    r.append(stamp);
    r.append("\nValidation: ");
    r.append(if result.validation_passed { "PASSED" } else { "FAILED" });
    r.append("\nPromise: ");
    r.append(if result.promise_found { "FOUND" } else { "NOT FOUND" });
    r.append("\nSummary: ");
    r.append(result.summary.as_str());
    r.append("\n\n");
    assert(r@ =~= entry(result@, stamp@));
    r
}

/// Whether the last line of `store` is closed.
pub fn is_tidy(store: &str) -> (b: bool)
    ensures
        b == tidy(store@),
{
    let chars = chars_of(store);
    chars.len() == 0 || chars[chars.len() - 1] == '\n'
}

/// What is to be appended to `store` for the record of `result`, written
/// at `stamp`: the record, behind a line feed where the last line of the
/// store is open.
pub fn render_record(store: &str, result: &IterationResult, stamp: &str) -> (r: String)
    ensures
        r@ == gap(store@) + entry(result@, stamp@),
{
    let mut r = String::new();
    if !is_tidy(store) {
        r.push('\n');
    }
    r.append(render_entry(result, stamp).as_str());
    assert(r@ =~= gap(store@) + entry(result@, stamp@));
    r
}

/// A progress store, and where it is kept.
#[derive(Debug)]
pub struct ProgressTracker {
    path: String,
    content: Option<String>,
}

pub struct ProgressTrackerView {
    pub path: Seq<char>,
    /// The text of the store, where there is one.
    pub content: Option<Seq<char>>,
}

impl View for ProgressTracker {
    type V = ProgressTrackerView;

    closed spec fn view(&self) -> ProgressTrackerView {
        ProgressTrackerView { path: self.path@, content: text_of(self.content) }
    }
}

impl ProgressTrackerView {
    /// The text of the store; a store that is not there has none.
    pub open spec fn text(self) -> Seq<char> {
        match self.content {
            Some(c) => c,
            None => Seq::empty(),
        }
    }
}

impl ProgressTracker {
    /// A tracker for the store at `path`, of which nothing is there yet.
    pub fn new(path: &str) -> (r: Self)
        ensures
            r@ == (ProgressTrackerView { path: path@, content: None }),
    {
        ProgressTracker { path: path.to_string(), content: None }
    }

    /// A tracker for the store at `path` with the text found there, if any.
    pub fn open(path: &str, content: Option<String>) -> (r: Self)
        ensures
            r@ == (ProgressTrackerView { path: path@, content: text_of(content) }),
    {
        ProgressTracker { path: path.to_string(), content }
    }

    /// Where the store is kept.
    pub fn path(&self) -> (r: &str)
        ensures
            r@ == self@.path,
    {
        self.path.as_str()
    }

    /// Starts the store anew with the header for `plan_path`, written at
    /// `started`, and hands back the text of the new store.
    pub fn init_at(&mut self, plan_path: &str, started: &str) -> (written: String)
        ensures
            written@ == header(started@, plan_path@),
            final(self)@ == (ProgressTrackerView {
                path: old(self)@.path,
                content: Some(written@),
            }),
    {
        let text = render_header(started, plan_path);
        self.content = Some(text.clone());
        text
    }

    /// Starts the store anew with the header for `plan_path` at the instant
    /// `now`. Where the instant cannot be written the store stays as it is.
    pub fn init(&mut self, plan_path: &str, now: Timestamp) -> (r: Result<String, ProgressError>)
        ensures
            match now.stamp() {
                Some(stamp) => r matches Ok(written) && written@ == header(stamp, plan_path@)
                    && final(self)@ == (ProgressTrackerView {
                    path: old(self)@.path,
                    content: Some(written@),
                }),
                None => r is Err && final(self)@ == old(self)@,
            },
    {
        match now.format() {
            Some(stamp) => Ok(self.init_at(plan_path, stamp.as_str())),
            None => Err(ProgressError::Timestamp),
        }
    }

    /// Appends the record of `result`, written at `stamp`, and hands back the
    /// text that was appended. The record begins a line of its own: where
    /// the last line of the store is open, a line feed closes it first.
    /// Nothing that was there is changed.
    pub fn log_iteration_at(&mut self, result: &IterationResult, stamp: &str) -> (appended: String)
        ensures
            appended@ == gap(old(self)@.text()) + entry(result@, stamp@),
            final(self)@ == (ProgressTrackerView {
                path: old(self)@.path,
                content: Some(old(self)@.text() + appended@),
            }),
    {
        let mut all = match &self.content {
            Some(c) => c.clone(),
            None => String::new(),
        };
        let text = render_record(all.as_str(), result, stamp);
        all.append(text.as_str());
        self.content = Some(all);
        text
    }

    /// Appends the record of `result` at the instant `now`. Where the instant
    /// cannot be written the store stays as it is.
    pub fn log_iteration(&mut self, result: &IterationResult, now: Timestamp) -> (r: Result<
        String,
        ProgressError,
    >)
        ensures
            match now.stamp() {
                Some(stamp) => r matches Ok(appended) && appended@ == gap(old(self)@.text())
                    + entry(result@, stamp) && final(self)@ == (ProgressTrackerView {
                    path: old(self)@.path,
                    content: Some(old(self)@.text() + appended@),
                }),
                None => r is Err && final(self)@ == old(self)@,
            },
    {
        match now.format() {
            Some(stamp) => Ok(self.log_iteration_at(result, stamp.as_str())),
            None => Err(ProgressError::Timestamp),
        }
    }

    /// Reads the store.
    pub fn read(&self) -> (r: Progress)
        ensures
            r@ == reading(self@.content),
    {
        match &self.content {
            None => Progress {
                started: None,
                plan_path: None,
                iterations: Vec::new(),
                last_status: None,
            },
            Some(c) => {
                let h = read_header(c.as_str());
                Progress {
                    started: read_started(&h.started),
                    plan_path: h.plan_path,
                    iterations: Vec::new(),
                    last_status: status_line(count_records(c.as_str())),
                }
            },
        }
    }

    /// The number of records in the store.
    pub fn iteration_count(&self) -> (n: u32)
        ensures
            n == records(self@.content),
    {
        match &self.content {
            None => 0,
            Some(c) => count_records(c.as_str()),
        }
    }

    /// Whether there is a store.
    pub fn is_present(&self) -> (r: bool)
        ensures
            r == self@.content is Some,
    {
        self.content.is_some()
    }

    /// The text of the store.
    pub fn raw_content(&self) -> (r: String)
        ensures
            r@ == self@.text(),
    {
        match &self.content {
            Some(c) => c.clone(),
            None => String::new(),
        }
    }
}

/// `s` holds no number sign.
pub open spec fn plain(s: Seq<char>) -> bool {
    forall|i: int| 0 <= i < s.len() ==> s[i] != '#'
}

/// A text without a number sign holds no marker.
pub proof fn lemma_plain_has_no_marker(s: Seq<char>)
    requires
        plain(s),
    ensures
        !contains(s, MARKER@),
{
    reveal_strlit("## Iteration");
    assert forall|at: int| !occurs_at(s, MARKER@, at) by {
        if occurs_at(s, MARKER@, at) {
            lemma_occurrence_begins(s, MARKER@, at);
        }
    }
}

/// The marker at the beginning of a line that is not the first: a line
/// feed, and behind it the marker.
pub open spec fn line_marker() -> Seq<char> {
    seq!['\n'] + MARKER@
}

/// A store whose last line is closed: what is appended to it begins a
/// line of its own.
pub open spec fn tidy(store: Seq<char>) -> bool {
    store.len() == 0 || store.last() == '\n'
}

/// What closes the last line of a store: a line feed where the line is
/// open, and nothing where it is closed.
pub open spec fn gap(store: Seq<char>) -> Seq<char> {
    if tidy(store) {
        Seq::empty()
    } else {
        seq!['\n']
    }
}

/// A text that holds the marker at the beginning of a line holds the marker.
pub proof fn lemma_line_marker_is_marker(s: Seq<char>)
    requires
        !contains(s, MARKER@),
    ensures
        !contains(s, line_marker()),
{
    let lm = line_marker();
    assert forall|at: int| !occurs_at(s, lm, at) by {
        if occurs_at(s, lm, at) {
            assert(s.subrange(at + 1, at + 1 + MARKER@.len()) =~= s.subrange(
                at,
                at + lm.len(),
            ).skip(1));
            assert(lm.skip(1) =~= MARKER@);
            assert(occurs_at(s, MARKER@, at + 1));
        }
    }
}

/// A text without a line feed holds no marker at the beginning of a
/// further line.
proof fn lemma_one_line_has_no_line_marker(h: Seq<char>)
    requires
        forall|i: int| 0 <= i < h.len() ==> h[i] != '\n',
    ensures
        !contains(h, line_marker()),
{
    let lm = line_marker();
    assert forall|at: int| !occurs_at(h, lm, at) by {
        if occurs_at(h, lm, at) {
            lemma_occurrence_begins(h, lm, at);
        }
    }
}

/// No marker at the beginning of a line lies across a joint at which a
/// line feed follows.
proof fn lemma_unbroken_before_newline(a: Seq<char>, b: Seq<char>)
    requires
        b.len() > 0,
        b[0] == '\n',
    ensures
        unbroken(a, b, line_marker()),
{
    reveal_strlit("## Iteration");
    let lm = line_marker();
    assert forall|at: int| #[trigger] occurs_at(a + b, lm, at) implies at + lm.len() <= a.len()
        || at >= a.len() by {
        if at < a.len() && at + lm.len() > a.len() {
            let window = (a + b).subrange(at, at + lm.len());
            let j = a.len() - at;
            assert(window[j] == b[0]);
            assert(lm[j] == MARKER@[j - 1]);
            assert(false);
        }
    }
}

/// After a line feed, a single line counts once if it begins with the
/// marker, and else not at all.
proof fn lemma_one_line(h: Seq<char>)
    requires
        forall|i: int| 0 <= i < h.len() ==> h[i] != '\n',
    ensures
        count(seq!['\n'] + h, line_marker()) == if starts_with(h, MARKER@) {
            1nat
        } else {
            0nat
        },
{
    reveal_strlit("## Iteration");
    let nl = seq!['\n'];
    let lm = line_marker();
    let hay = nl + h;
    if hay.len() >= lm.len() {
        if starts_with(h, MARKER@) {
            assert(hay.subrange(0, lm.len() as int) =~= lm);
            let rest = h.skip(MARKER@.len() as int);
            assert(hay.skip(lm.len() as int) =~= rest);
            lemma_one_line_has_no_line_marker(rest);
            lemma_count_none(rest, lm);
        } else {
            assert(!starts_with(hay, lm)) by {
                if starts_with(hay, lm) {
                    assert(h.subrange(0, MARKER@.len() as int) =~= hay.subrange(
                        0,
                        lm.len() as int,
                    ).skip(1));
                    assert(lm.skip(1) =~= MARKER@);
                }
            }
            assert(hay.skip(1) =~= h);
            lemma_one_line_has_no_line_marker(h);
            lemma_count_none(h, lm);
        }
    }
}

/// The marked lines of two lists of lines are those of the one and those
/// of the other.
proof fn lemma_marked_concat(a: Seq<Seq<char>>, b: Seq<Seq<char>>)
    ensures
        marked(a + b) == marked(a) + marked(b),
    decreases b.len(),
{
    if b.len() == 0 {
        assert(a + b =~= a);
    } else {
        assert((a + b).drop_last() =~= a + b.drop_last());
        lemma_marked_concat(a, b.drop_last());
    }
}

/// A line begins with the marker whether or not a carriage return is
/// taken off its end.
proof fn lemma_strip_cr_keeps_marker(h: Seq<char>)
    ensures
        starts_with(strip_cr(h), MARKER@) <==> starts_with(h, MARKER@),
{
    reveal_strlit("## Iteration");
    let m = MARKER@;
    if h.len() > 0 && h.last() == '\r' {
        let d = h.drop_last();
        if starts_with(h, m) {
            assert(h.subrange(0, m.len() as int)[11] == h[11]);
            assert(h.len() > m.len());
            assert(d.subrange(0, m.len() as int) =~= h.subrange(0, m.len() as int));
        }
        if starts_with(d, m) {
            assert(h.subrange(0, m.len() as int) =~= d.subrange(0, m.len() as int));
        }
    }
}

/// The lines of a text that begin with the marker are the places where
/// the marker stands at the beginning of a line: behind a line feed, once
/// a line feed is put before the text.
pub proof fn lemma_marked_lines(s: Seq<char>)
    ensures
        marked(lines(s)) == count(seq!['\n'] + s, line_marker()),
    decreases s.len(),
{
    reveal_strlit("## Iteration");
    let nl = seq!['\n'];
    let lm = line_marker();
    if s.len() == 0 {
        assert(nl + s =~= nl);
        assert(lines(s) =~= Seq::<Seq<char>>::empty());
        assert(count(nl, lm) == 0);
    } else {
        lemma_first_newline_found(s);
        let k = first_newline(s) as int;
        if k >= s.len() {
            assert(lines(s) =~= seq![s]);
            assert(seq![s].drop_last() =~= Seq::<Seq<char>>::empty());
            assert(seq![s].last() == s);
            assert(marked(Seq::<Seq<char>>::empty()) == 0);
            assert(marked(seq![s]) == if starts_with(s, MARKER@) { 1nat } else { 0nat });
            lemma_one_line(s);
        } else {
            let head = s.take(k);
            let tail = s.skip(k + 1);
            let first = seq![strip_cr(head)];
            assert(lines(s) =~= first + lines(tail));
            lemma_marked_lines(tail);
            lemma_marked_concat(first, lines(tail));
            assert(first.drop_last() =~= Seq::<Seq<char>>::empty());
            assert(first.last() == strip_cr(head));
            assert(marked(Seq::<Seq<char>>::empty()) == 0);
            assert(marked(first) == if starts_with(strip_cr(head), MARKER@) { 1nat } else { 0nat });
            lemma_strip_cr_keeps_marker(head);
            lemma_one_line(head);
            assert(nl + s =~= (nl + head) + (nl + tail));
            lemma_unbroken_before_newline(nl + head, nl + tail);
            lemma_count_concat(nl + head, nl + tail, lm);
        }
    }
}

/// What follows the marker in a record holds no marker at the beginning
/// of a line, unless the stamp or the summary holds one.
proof fn lemma_body_has_no_line_marker(r: IterationResultView, stamp: Seq<char>)
    requires
        !contains(stamp, line_marker()),
        !contains(r.summary, line_marker()),
    ensures
        !contains(entry_body(r, stamp), line_marker()),
{
    reveal_strlit("## Iteration");
    reveal_strlit(" ");
    reveal_strlit("\nTimestamp: ");
    reveal_strlit("\nValidation: ");
    reveal_strlit("PASSED");
    reveal_strlit("FAILED");
    reveal_strlit("\nPromise: ");
    reveal_strlit("FOUND");
    reveal_strlit("NOT FOUND");
    reveal_strlit("\nSummary: ");
    reveal_strlit("\n\n");
    let m = line_marker();
    let digits = decimal(r.iteration as nat);
    let a = " "@ + digits + "\nTimestamp: "@;
    let c = "\nValidation: "@ + validation_word(r.validation_passed) + "\nPromise: "@
        + promise_word(r.promise_found) + "\nSummary: "@;
    let e = "\n\n"@;
    let r3 = r.summary + e;
    let r2 = c + r3;
    let r1 = stamp + r2;
    let body = entry_body(r, stamp);
    assert(body =~= a + r1);
    assert(plain(a)) by {
        assert forall|i: int| 0 <= i < a.len() implies a[i] != '#' by {
            if 1 <= i < 1 + digits.len() {
                lemma_decimal_digits(r.iteration as nat, i - 1);
            }
        }
    }
    assert(a.last() == ' ');
    assert(plain(c));
    assert(c.last() == ' ');
    assert(c[0] == '\n');
    assert(e[0] == '\n');
    assert(m[0] == '\n' && m[1] == '#');
    assert(forall|j: int| 1 <= j < m.len() ==> m[j] != '\n') by {
        assert forall|j: int| 1 <= j < m.len() implies m[j] != '\n' by {
            assert(m[j] == MARKER@[j - 1]);
        }
    }
    assert forall|at: int| !occurs_at(body, m, at) by {
        if occurs_at(body, m, at) {
            lemma_occurrence_second(a + r1, m, at);
            assert(at >= a.len()) by {
                if at < a.len() {
                    if at + 1 < a.len() {
                        assert((a + r1)[at + 1] == a[at + 1]);
                    } else {
                        assert((a + r1)[at] == a.last());
                    }
                }
            }
            lemma_occurrence_in_second(a, r1, m, at);
            let p1 = at - a.len();
            assert(r2[0] == '\n');
            if p1 < stamp.len() {
                lemma_occurrence_ends_before(stamp, r2, m, p1);
                assert(false);
            }
            lemma_occurrence_in_second(stamp, r2, m, p1);
            let p2 = p1 - stamp.len();
            lemma_occurrence_second(c + r3, m, p2);
            assert(p2 >= c.len()) by {
                if p2 < c.len() {
                    if p2 + 1 < c.len() {
                        assert((c + r3)[p2 + 1] == c[p2 + 1]);
                    } else {
                        assert((c + r3)[p2] == c.last());
                    }
                }
            }
            lemma_occurrence_in_second(c, r3, m, p2);
            let p3 = p2 - c.len();
            if p3 < r.summary.len() {
                lemma_occurrence_ends_before(r.summary, e, m, p3);
                assert(false);
            }
            lemma_occurrence_in_second(r.summary, e, m, p3);
        }
    }
}

/// Appending a record to a store whose last line is closed adds one to the
/// lines that begin with the marker, and leaves the last line closed, as
/// long as neither the stamp nor the summary of the record holds the marker
/// at the beginning of a line of its own.
proof fn lemma_append_to_closed(store: Seq<char>, r: IterationResultView, stamp: Seq<char>)
    requires
        tidy(store),
        !contains(stamp, line_marker()),
        !contains(r.summary, line_marker()),
    ensures
        marked(lines(store + entry(r, stamp))) == marked(lines(store)) + 1,
        tidy(store + entry(r, stamp)),
{
    reveal_strlit("## Iteration");
    reveal_strlit("\n\n");
    let nl = seq!['\n'];
    let lm = line_marker();
    let body = entry_body(r, stamp);
    let e = entry(r, stamp);
    let closed = nl + store;
    let open = closed.drop_last();
    let next = nl + e;
    assert(closed =~= open + nl);
    assert(nl + (store + e) =~= open + next);
    lemma_marked_lines(store);
    lemma_marked_lines(store + e);
    lemma_unbroken_before_newline(open, nl);
    lemma_count_concat(open, nl, lm);
    lemma_unbroken_before_newline(open, next);
    lemma_count_concat(open, next, lm);
    assert(next.subrange(0, lm.len() as int) =~= lm);
    assert(next.skip(lm.len() as int) =~= body);
    lemma_body_has_no_line_marker(r, stamp);
    lemma_count_none(body, lm);
    assert((store + e).last() == '\n') by {
        assert(e.last() == "\n\n"@.last());
    }
}

/// Closing the last line of a store changes no line's beginning: as many
/// lines begin with the marker as before.
pub proof fn lemma_closing_keeps_count(store: Seq<char>)
    ensures
        marked(lines(store + gap(store))) == marked(lines(store)),
        tidy(store + gap(store)),
{
    reveal_strlit("## Iteration");
    let nl = seq!['\n'];
    let lm = line_marker();
    if tidy(store) {
        assert(store + gap(store) =~= store);
    } else {
        let closed = store + nl;
        lemma_marked_lines(store);
        lemma_marked_lines(closed);
        assert(nl + closed =~= (nl + store) + nl);
        lemma_unbroken_before_newline(nl + store, nl);
        lemma_count_concat(nl + store, nl, lm);
        assert(count(nl, lm) == 0);
    }
}

/// Appending a record adds one to the lines that begin with the marker,
/// whatever the store holds and however it ends, and leaves the last line
/// closed, as long as neither the stamp nor the summary of the record holds
/// the marker at the beginning of a line of its own.
pub proof fn lemma_append_counts_once(store: Seq<char>, r: IterationResultView, stamp: Seq<char>)
    requires
        !contains(stamp, line_marker()),
        !contains(r.summary, line_marker()),
    ensures
        marked(lines(store + (gap(store) + entry(r, stamp)))) == marked(lines(store)) + 1,
        tidy(store + (gap(store) + entry(r, stamp))),
{
    let closed = store + gap(store);
    lemma_closing_keeps_count(store);
    lemma_append_to_closed(closed, r, stamp);
    assert(store + (gap(store) + entry(r, stamp)) =~= closed + entry(r, stamp));
}

} // verus!
