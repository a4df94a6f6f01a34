//! Text as sequences of characters: what it means for one text to occur in
//! another, to be counted, replaced, split into lines or trimmed, and
//! executable functions proved against those meanings.

use vstd::prelude::*;

verus! {

/// `needle` stands in `hay` at position `at`.
pub open spec fn occurs_at(hay: Seq<char>, needle: Seq<char>, at: int) -> bool {
    &&& 0 <= at
    &&& at + needle.len() <= hay.len()
    &&& hay.subrange(at, at + needle.len()) == needle
}

/// `needle` stands somewhere in `hay`.
pub open spec fn contains(hay: Seq<char>, needle: Seq<char>) -> bool {
    exists|at: int| occurs_at(hay, needle, at)
}

/// `s` begins with `prefix`.
pub open spec fn starts_with(s: Seq<char>, prefix: Seq<char>) -> bool {
    occurs_at(s, prefix, 0)
}

/// `s` ends with `suffix`.
pub open spec fn ends_with(s: Seq<char>, suffix: Seq<char>) -> bool {
    occurs_at(s, suffix, s.len() - suffix.len())
}

/// The number of occurrences of a non-empty `needle` met when `hay` is read
/// from the left and each occurrence found is stepped over.
pub open spec fn count(hay: Seq<char>, needle: Seq<char>) -> nat
    decreases hay.len(),
{
    if needle.len() == 0 || hay.len() < needle.len() {
        0
    } else if starts_with(hay, needle) {
        1 + count(hay.skip(needle.len() as int), needle)
    } else {
        count(hay.skip(1), needle)
    }
}

/// `s` with every occurrence of a non-empty `from`, found from the left, replaced by `to`.
pub open spec fn replace(s: Seq<char>, from: Seq<char>, to: Seq<char>) -> Seq<char>
    decreases s.len(),
{
    if from.len() == 0 || s.len() < from.len() {
        s
    } else if starts_with(s, from) {
        to + replace(s.skip(from.len() as int), from, to)
    } else {
        seq![s[0]] + replace(s.skip(1), from, to)
    }
}

/// The position of the first line feed in `s`, or the length of `s` if it has none.
pub open spec fn first_newline(s: Seq<char>) -> nat
    decreases s.len(),
{
    if s.len() == 0 || s[0] == '\n' {
        0
    } else {
        1 + first_newline(s.skip(1))
    }
}

/// `line` without one trailing carriage return.
pub open spec fn strip_cr(line: Seq<char>) -> Seq<char> {
    if line.len() > 0 && line.last() == '\r' {
        line.drop_last()
    } else {
        line
    }
}

/// The lines of `s`. A line ends at a line feed, which is dropped together
/// with a carriage return right before it; the last line needs no line feed,
/// and an empty rest after the last line feed is no line.
pub open spec fn lines(s: Seq<char>) -> Seq<Seq<char>>
    decreases s.len(),
{
    if s.len() == 0 {
        Seq::empty()
    } else {
        let k = first_newline(s);
        if k >= s.len() {
            seq![s]
        } else {
            seq![strip_cr(s.take(k as int))] + lines(s.skip(k as int + 1))
        }
    }
}

/// The characters with the Unicode property `White_Space`.
pub open spec fn is_space(c: char) -> bool {
    ||| '\u{9}' <= c <= '\u{d}'
    ||| c == ' '
    ||| c == '\u{85}'
    ||| c == '\u{a0}'
    ||| c == '\u{1680}'
    ||| '\u{2000}' <= c <= '\u{200a}'
    ||| c == '\u{2028}'
    ||| c == '\u{2029}'
    ||| c == '\u{202f}'
    ||| c == '\u{205f}'
    ||| c == '\u{3000}'
}

/// `s` without its leading white space.
pub open spec fn trim_start(s: Seq<char>) -> Seq<char>
    decreases s.len(),
{
    if s.len() > 0 && is_space(s[0]) {
        trim_start(s.skip(1))
    } else {
        s
    }
}

/// `s` without its trailing white space.
pub open spec fn trim_end(s: Seq<char>) -> Seq<char>
    decreases s.len(),
{
    if s.len() > 0 && is_space(s.last()) {
        trim_end(s.drop_last())
    } else {
        s
    }
}

/// `s` without white space at either end.
pub open spec fn trim(s: Seq<char>) -> Seq<char> {
    trim_end(trim_start(s))
}

/// `s` after a non-empty `prefix` has been taken off its front as often as it stands there.
pub open spec fn strip_prefixes(s: Seq<char>, prefix: Seq<char>) -> Seq<char>
    decreases s.len(),
{
    if prefix.len() > 0 && starts_with(s, prefix) {
        strip_prefixes(s.skip(prefix.len() as int), prefix)
    } else {
        s
    }
}

/// `s` after a non-empty `suffix` has been taken off its end as often as it stands there.
pub open spec fn strip_suffixes(s: Seq<char>, suffix: Seq<char>) -> Seq<char>
    decreases s.len(),
{
    if suffix.len() > 0 && ends_with(s, suffix) {
        strip_suffixes(s.take(s.len() - suffix.len()), suffix)
    } else {
        s
    }
}

/// The decimal digit for `d`, for `d` below ten.
pub open spec fn digit(d: nat) -> char {
    (('0' as nat) + d) as char
}

/// `n` written in decimal, without sign or leading zeros.
pub open spec fn decimal(n: nat) -> Seq<char>
    decreases n,
{
    if n < 10 {
        seq![digit(n)]
    } else {
        decimal(n / 10).push(digit(n % 10))
    }
}

/// The views of a sequence of values, one for one.
pub open spec fn views<T: View>(v: Seq<T>) -> Seq<T::V> {
    Seq::new(v.len(), |i: int| v[i]@)
}

/// An occurrence at `at` is a prefix of what is left after `at` characters.
pub proof fn lemma_occurs_at_skip(hay: Seq<char>, needle: Seq<char>, at: int)
    requires
        0 <= at <= hay.len(),
    ensures
        occurs_at(hay, needle, at) <==> starts_with(hay.skip(at), needle),
{
    if at + needle.len() <= hay.len() {
        assert(hay.subrange(at, at + needle.len()) =~= hay.skip(at).subrange(
            0,
            needle.len() as int,
        ));
    }
}

/// The characters of `s`, in order.
pub fn chars_of(s: &str) -> (v: Vec<char>)
    ensures
        v@ == s@,
{
    let mut v: Vec<char> = Vec::new();
    for c in it: s.chars()
        invariant
            it.seq() == s@,
            v@ == s@.take(it.index()),
    {
        assert(s@.take(it.index() + 1) =~= s@.take(it.index()).push(c));
        v.push(c);
    }
    assert(s@.take(s@.len() as int) =~= s@);
    v
}

/// Appends one character to a string, as `String::push` of the standard
/// library does.
pub assume_specification[ String::push ](s: &mut String, c: char)
    ensures
        final(s)@ == old(s)@.push(c),
;

/// The characters of `v` from `from` up to `to`, as a string.
pub(crate) fn substring(v: &Vec<char>, from: usize, to: usize) -> (s: String)
    requires
        from <= to <= v.len(),
    ensures
        s@ == v@.subrange(from as int, to as int),
{
    let mut s = String::new();
    let mut i: usize = from;
    while i < to
        invariant
            from <= i <= to <= v.len(),
            s@ == v@.subrange(from as int, i as int),
        decreases to - i,
    {
        assert(v@.subrange(from as int, i + 1) =~= v@.subrange(from as int, i as int).push(
            v@[i as int],
        ));
        s.push(v[i]);
        i += 1;
    }
    s
}

/// Whether `needle` stands in `hay` at `at`.
pub fn matches_at(hay: &Vec<char>, needle: &Vec<char>, at: usize) -> (b: bool)
    ensures
        b == occurs_at(hay@, needle@, at as int),
{
    if needle.len() > hay.len() || at > hay.len() - needle.len() {
        return false;
    }
    let mut j: usize = 0;
    while j < needle.len()
        invariant
            j <= needle.len(),
            at + needle.len() <= hay.len(),
            forall|k: int| 0 <= k < j ==> hay@[at + k] == needle@[k],
        decreases needle.len() - j,
    {
        if hay[at + j] != needle[j] {
            assert(hay@.subrange(at as int, at + needle@.len())[j as int] != needle@[j as int]);
            return false;
        }
        j += 1;
    }
    assert(hay@.subrange(at as int, at + needle@.len()) =~= needle@);
    true
}

/// Whether `needle` stands somewhere in `hay`. An empty `needle` stands everywhere.
pub fn find(hay: &str, needle: &str) -> (b: bool)
    ensures
        b == contains(hay@, needle@),
{
    let h = chars_of(hay);
    let n = chars_of(needle);
    if n.len() == 0 {
        assert(occurs_at(hay@, needle@, 0)) by {
            assert(hay@.subrange(0, 0) =~= needle@);
        }
        return true;
    }
    let mut at: usize = 0;
    while at < h.len() && h.len() - at >= n.len()
        invariant
            h@ == hay@,
            n@ == needle@,
            n.len() > 0,
            at <= h.len(),
            forall|k: int| 0 <= k < at ==> !occurs_at(hay@, needle@, k),
        decreases h.len() - at,
    {
        if matches_at(&h, &n, at) {
            return true;
        }
        at += 1;
    }
    false
}

/// Whether `s` begins with `prefix`.
pub fn has_prefix(s: &str, prefix: &str) -> (b: bool)
    ensures
        b == starts_with(s@, prefix@),
{
    let h = chars_of(s);
    let p = chars_of(prefix);
    matches_at(&h, &p, 0)
}

/// How often a non-empty `needle` is met in `hay`, read from the left.
pub fn count_in(hay: &Vec<char>, needle: &Vec<char>) -> (n: usize)
    ensures
        n == count(hay@, needle@),
{
    let mut n: usize = 0;
    let mut i: usize = 0;
    if needle.len() == 0 {
        return 0;
    }
    assert(hay@.skip(0) =~= hay@);
    while hay.len() - i >= needle.len()
        invariant
            needle.len() > 0,
            i <= hay.len(),
            n <= i,
            n + count(hay@.skip(i as int), needle@) == count(hay@, needle@),
        decreases hay.len() - i,
    {
        proof {
            lemma_occurs_at_skip(hay@, needle@, i as int);
        }
        if matches_at(hay, needle, i) {
            assert(hay@.skip(i as int).skip(needle@.len() as int) =~= hay@.skip(
                i + needle@.len(),
            ));
            n += 1;
            i += needle.len();
        } else {
            assert(hay@.skip(i as int).skip(1) =~= hay@.skip(i + 1));
            i += 1;
        }
    }
    n
}

/// `s` with each occurrence of a non-empty `from` replaced by `to`.
pub fn replace_all(s: &str, from: &str, to: &str) -> (r: String)
    ensures
        r@ == replace(s@, from@, to@),
{
    let h = chars_of(s);
    let f = chars_of(from);
    let mut r = String::new();
    let mut i: usize = 0;
    if f.len() == 0 {
        return s.to_string();
    }
    assert(h@.skip(0) =~= h@);
    assert(r@ + replace(h@, f@, to@) =~= replace(h@, f@, to@));
    while h.len() - i >= f.len()
        invariant
            h@ == s@,
            f@ == from@,
            f.len() > 0,
            i <= h.len(),
            r@ + replace(h@.skip(i as int), f@, to@) == replace(h@, f@, to@),
        decreases h.len() - i,
    {
        proof {
            lemma_occurs_at_skip(h@, f@, i as int);
        }
        let ghost before = r@;
        let ghost rest = h@.skip(i as int);
        if matches_at(&h, &f, i) {
            assert(rest.skip(f@.len() as int) =~= h@.skip(i + f@.len()));
            r.append(to);
            assert(r@ + replace(h@.skip(i + f@.len()), f@, to@) =~= before + replace(
                rest,
                f@,
                to@,
            ));
            i += f.len();
        } else {
            assert(rest.skip(1) =~= h@.skip(i + 1));
            r.push(h[i]);
            assert(r@ + replace(h@.skip(i + 1), f@, to@) =~= before + replace(rest, f@, to@));
            i += 1;
        }
    }
    let tail = substring(&h, i, h.len());
    assert(h@.subrange(i as int, h@.len() as int) =~= h@.skip(i as int));
    r.append(tail.as_str());
    r
}

/// Where the first line feed stands, given that none stands before `k`.
pub proof fn lemma_first_newline(s: Seq<char>, k: int)
    requires
        0 <= k <= s.len(),
        forall|j: int| 0 <= j < k ==> s[j] != '\n',
        k == s.len() || s[k] == '\n',
    ensures
        first_newline(s) == k,
    decreases k,
{
    if k > 0 {
        lemma_first_newline(s.skip(1), k - 1);
    }
}

/// The views of a sequence that grew by one value.
pub proof fn lemma_views_push<T: View>(v: Seq<T>, x: T)
    ensures
        views(v.push(x)) == views(v).push(x@),
{
    assert(views(v.push(x)) =~= views(v).push(x@));
}

/// The lines of `s`, each as a string of its own.
pub fn split_lines(s: &str) -> (out: Vec<String>)
    ensures
        views(out@) == lines(s@),
{
    let h = chars_of(s);
    let mut out: Vec<String> = Vec::new();
    let mut start: usize = 0;
    assert(h@.skip(0) =~= h@);
    assert(views(out@) + lines(h@) =~= lines(h@));
    while start < h.len()
        invariant
            h@ == s@,
            start <= h.len(),
            views(out@) + lines(h@.skip(start as int)) == lines(h@),
        decreases h.len() - start,
    {
        let mut i: usize = start;
        while i < h.len() && h[i] != '\n'
            invariant
                start <= i <= h.len(),
                forall|k: int| start <= k < i ==> h@[k] != '\n',
            decreases h.len() - i,
        {
            i += 1;
        }
        let ghost rest = h@.skip(start as int);
        let ghost done = views(out@);
        proof {
            lemma_first_newline(rest, i - start);
        }
        if i == h.len() {
            let line = substring(&h, start, i);
            proof {
                assert(h@.subrange(start as int, i as int) =~= rest);
                lemma_views_push(out@, line);
                assert(h@.skip(i as int) =~= Seq::<char>::empty());
                assert(done.push(line@) + lines(h@.skip(i as int)) =~= done + lines(rest));
            }
            out.push(line);
            start = i;
        } else {
            let end: usize = if i > start && h[i - 1] == '\r' {
                i - 1
            } else {
                i
            };
            let line = substring(&h, start, end);
            proof {
                assert(h@.subrange(start as int, i as int) =~= rest.take(i - start));
                assert(h@.subrange(start as int, end as int) =~= strip_cr(rest.take(i - start)));
                assert(rest.skip(i - start + 1) =~= h@.skip(i + 1));
                lemma_views_push(out@, line);
                assert(done.push(line@) + lines(h@.skip(i + 1)) =~= done + lines(rest));
            }
            out.push(line);
            start = i + 1;
        }
    }
    assert(h@.skip(h@.len() as int) =~= Seq::<char>::empty());
    assert(views(out@) + Seq::<Seq<char>>::empty() =~= views(out@));
    out
}

/// Whether `c` is white space.
pub fn space(c: char) -> (b: bool)
    ensures
        b == is_space(c),
{
    ('\u{9}' <= c && c <= '\u{d}') || c == ' ' || c == '\u{85}' || c == '\u{a0}' || c
        == '\u{1680}' || ('\u{2000}' <= c && c <= '\u{200a}') || c == '\u{2028}' || c
        == '\u{2029}' || c == '\u{202f}' || c == '\u{205f}' || c == '\u{3000}'
}

/// `s` without white space at either end.
pub fn trimmed(s: &str) -> (r: String)
    ensures
        r@ == trim(s@),
{
    let h = chars_of(s);
    let mut a: usize = 0;
    assert(h@.skip(0) =~= h@);
    while a < h.len() && space(h[a])
        invariant
            a <= h.len(),
            trim_start(h@.skip(a as int)) == trim_start(h@),
        decreases h.len() - a,
    {
        assert(h@.skip(a as int).skip(1) =~= h@.skip(a + 1));
        a += 1;
    }
    let mut b: usize = h.len();
    assert(h@.subrange(a as int, b as int) =~= h@.skip(a as int));
    while b > a && space(h[b - 1])
        invariant
            a <= b <= h.len(),
            trim_end(h@.subrange(a as int, b as int)) == trim_end(h@.skip(a as int)),
        decreases b,
    {
        assert(h@.subrange(a as int, b as int).drop_last() =~= h@.subrange(a as int, b - 1));
        b -= 1;
    }
    substring(&h, a, b)
}

/// `s` after a non-empty `prefix` has been taken off its front as often as it stands there.
pub fn without_prefixes(s: &str, prefix: &str) -> (r: String)
    ensures
        r@ == strip_prefixes(s@, prefix@),
{
    let h = chars_of(s);
    let p = chars_of(prefix);
    if p.len() == 0 {
        return s.to_string();
    }
    let mut i: usize = 0;
    assert(h@.skip(0) =~= h@);
    while i <= h.len() && matches_at(&h, &p, i)
        invariant
            p.len() > 0,
            i <= h.len(),
            strip_prefixes(h@.skip(i as int), p@) == strip_prefixes(h@, p@),
            i < h.len() ==> (occurs_at(h@, p@, i as int) <==> starts_with(h@.skip(i as int), p@)),
        decreases h.len() - i,
    {
        assert(h@.skip(i as int).skip(p@.len() as int) =~= h@.skip(i + p@.len()));
        i += p.len();
        proof {
            lemma_occurs_at_skip(h@, p@, i as int);
        }
    }
    proof {
        lemma_occurs_at_skip(h@, p@, i as int);
    }
    assert(h@.subrange(i as int, h@.len() as int) =~= h@.skip(i as int));
    substring(&h, i, h.len())
}

/// `s` after a non-empty `suffix` has been taken off its end as often as it stands there.
pub fn without_suffixes(s: &str, suffix: &str) -> (r: String)
    ensures
        r@ == strip_suffixes(s@, suffix@),
{
    let h = chars_of(s);
    let p = chars_of(suffix);
    if p.len() == 0 {
        return s.to_string();
    }
    let mut e: usize = h.len();
    assert(h@.take(e as int) =~= h@);
    loop
        invariant
            p.len() > 0,
            e <= h.len(),
            strip_suffixes(h@.take(e as int), p@) == strip_suffixes(h@, p@),
        ensures
            strip_suffixes(h@, p@) == h@.take(e as int),
        decreases e,
    {
        let ghost cur = h@.take(e as int);
        if e < p.len() {
            break;
        }
        let found = matches_at(&h, &p, e - p.len());
        assert(found == ends_with(cur, p@)) by {
            assert(cur.subrange(e - p@.len(), e as int) =~= h@.subrange(e - p@.len(), e as int));
        }
        if !found {
            break;
        }
        assert(cur.take(cur.len() - p@.len()) =~= h@.take(e - p@.len()));
        e -= p.len();
    }
    assert(h@.subrange(0, e as int) =~= h@.take(e as int));
    substring(&h, 0, e)
}

/// The decimal digit for `d`.
pub(crate) fn digit_of(d: u8) -> (c: char)
    requires
        d < 10,
    ensures
        c == digit(d as nat),
{
    (48u8 + d) as char
}

/// `n` written in decimal.
pub fn to_decimal(n: u64) -> (r: String)
    ensures
        r@ == decimal(n as nat),
    decreases n,
{
    if n < 10 {
        let mut r = String::new();
        r.push(digit_of(n as u8));
        assert(r@ =~= seq![digit(n as nat)]);
        r
    } else {
        let mut r = to_decimal(n / 10);
        r.push(digit_of((n % 10) as u8));
        r
    }
}

/// An occurrence in what is left after `k` characters is an occurrence `k` further on.
pub proof fn lemma_occurs_at_shift(hay: Seq<char>, needle: Seq<char>, k: int, at: int)
    requires
        0 <= k <= hay.len(),
        0 <= at,
    ensures
        occurs_at(hay.skip(k), needle, at) <==> occurs_at(hay, needle, at + k),
{
    if at + needle.len() <= hay.len() - k {
        assert(hay.skip(k).subrange(at, at + needle.len()) =~= hay.subrange(
            at + k,
            at + k + needle.len(),
        ));
    }
}

/// A text in which `needle` does not occur counts none.
pub proof fn lemma_count_none(hay: Seq<char>, needle: Seq<char>)
    requires
        !contains(hay, needle),
    ensures
        count(hay, needle) == 0,
    decreases hay.len(),
{
    if needle.len() > 0 && hay.len() >= needle.len() {
        assert(!occurs_at(hay, needle, 0));
        assert forall|at: int| !occurs_at(hay.skip(1), needle, at) by {
            if 0 <= at {
                lemma_occurs_at_shift(hay, needle, 1, at);
                assert(!occurs_at(hay, needle, at + 1));
            }
        }
        lemma_count_none(hay.skip(1), needle);
    }
}

/// No occurrence of `needle` in `a + b` begins in `a` and ends in `b`.
pub open spec fn unbroken(a: Seq<char>, b: Seq<char>, needle: Seq<char>) -> bool {
    forall|at: int| #[trigger]
        occurs_at(a + b, needle, at) ==> at + needle.len() <= a.len() || at >= a.len()
}

/// Where no occurrence lies across the joint of two texts, the occurrences
/// of the whole are those of the parts.
pub proof fn lemma_count_concat(a: Seq<char>, b: Seq<char>, needle: Seq<char>)
    requires
        needle.len() > 0,
        unbroken(a, b, needle),
    ensures
        count(a + b, needle) == count(a, needle) + count(b, needle),
    decreases a.len(),
{
    let m = needle.len() as int;
    let whole = a + b;
    if a.len() == 0 {
        assert(whole =~= b);
    } else {
        let step: int = if a.len() >= m && starts_with(a, needle) {
            m
        } else {
            1
        };
        assert(whole.skip(step) =~= a.skip(step) + b);
        assert(unbroken(a.skip(step), b, needle)) by {
            assert forall|at: int| #[trigger]
                occurs_at(a.skip(step) + b, needle, at) implies at + needle.len() <= a.skip(
                step,
            ).len() || at >= a.skip(step).len() by {
                lemma_occurs_at_shift(whole, needle, step, at);
                assert(occurs_at(whole, needle, at + step));
            }
        }
        lemma_count_concat(a.skip(step), b, needle);
        if a.len() >= m {
            assert(whole.subrange(0, m) =~= a.subrange(0, m));
            assert(starts_with(whole, needle) <==> starts_with(a, needle));
        } else {
            assert(!starts_with(whole, needle)) by {
                if starts_with(whole, needle) {
                    assert(occurs_at(whole, needle, 0));
                }
            }
            if whole.len() < m {
                assert(b.len() < m);
            }
        }
    }
}

/// An occurrence that begins in the first of two texts ends there too,
/// where the second text begins with a character that `needle` does not
/// hold behind its first.
pub proof fn lemma_occurrence_ends_before(a: Seq<char>, b: Seq<char>, needle: Seq<char>, at: int)
    requires
        occurs_at(a + b, needle, at),
        at < a.len(),
        b.len() > 0,
        forall|j: int| 1 <= j < needle.len() ==> needle[j] != b[0],
    ensures
        occurs_at(a, needle, at),
{
    let whole = a + b;
    let window = whole.subrange(at, at + needle.len());
    if at + needle.len() > a.len() {
        let j = a.len() - at;
        assert(window[j] == whole[a.len() as int]);
        assert(whole[a.len() as int] == b[0]);
        assert(needle[j] == b[0]);
    }
    assert(a.subrange(at, at + needle.len()) =~= window);
}

/// Where the first line feed stands: none stands before it.
pub proof fn lemma_first_newline_found(s: Seq<char>)
    ensures
        first_newline(s) <= s.len(),
        forall|j: int| 0 <= j < first_newline(s) ==> s[j] != '\n',
        first_newline(s) < s.len() ==> s[first_newline(s) as int] == '\n',
    decreases s.len(),
{
    if s.len() > 0 && s[0] != '\n' {
        lemma_first_newline_found(s.skip(1));
        assert forall|j: int| 0 <= j < first_newline(s) implies s[j] != '\n' by {
            if j > 0 {
                assert(s[j] == s.skip(1)[j - 1]);
            }
        }
    }
}

/// An occurrence of a `needle` of two characters or more holds its second
/// character behind its first.
pub proof fn lemma_occurrence_second(hay: Seq<char>, needle: Seq<char>, at: int)
    requires
        occurs_at(hay, needle, at),
        needle.len() > 1,
    ensures
        0 <= at,
        at + 1 < hay.len(),
        hay[at] == needle[0],
        hay[at + 1] == needle[1],
{
    assert(hay.subrange(at, at + needle.len())[0] == hay[at]);
    assert(hay.subrange(at, at + needle.len())[1] == hay[at + 1]);
}

/// An occurrence of a non-empty `needle` begins with its first character.
pub proof fn lemma_occurrence_begins(hay: Seq<char>, needle: Seq<char>, at: int)
    requires
        occurs_at(hay, needle, at),
        needle.len() > 0,
    ensures
        0 <= at < hay.len(),
        hay[at] == needle[0],
{
    assert(hay.subrange(at, at + needle.len())[0] == hay[at]);
}

/// An occurrence that begins after the first of two texts is an occurrence
/// in the second.
pub proof fn lemma_occurrence_in_second(a: Seq<char>, b: Seq<char>, needle: Seq<char>, at: int)
    requires
        occurs_at(a + b, needle, at),
        at >= a.len(),
    ensures
        occurs_at(b, needle, at - a.len()),
{
    assert(b.subrange(at - a.len(), at - a.len() + needle.len()) =~= (a + b).subrange(
        at,
        at + needle.len(),
    ));
}

/// The digits of a number are decimal digits.
pub proof fn lemma_decimal_digits(n: nat, i: int)
    requires
        0 <= i < decimal(n).len(),
    ensures
        '0' <= decimal(n)[i] <= '9',
    decreases n,
{
    if n >= 10 {
        if i < decimal(n / 10).len() {
            lemma_decimal_digits(n / 10, i);
        }
    }
}

} // verus!
