use vstd::prelude::*;

use crate::cmd::views;

verus! {

// ------------------------------------------------------------------
// Regular-expression search, through the `regex` crate.
// ------------------------------------------------------------------

/// Whether `regex::Regex::new` accepts the pattern. A property of the
/// pattern text alone.
pub uninterp spec fn regex_valid(pattern: Seq<char>) -> bool;

/// Whether the compiled pattern matches anywhere in the text (a search,
/// not a full match). A function of the pattern and the text alone.
pub uninterp spec fn regex_found(pattern: Seq<char>, text: Seq<char>) -> bool;

/// Relies on `regex::Regex::new`: whether a pattern compiles depends on
/// the pattern text alone.
#[verifier::external_body]
fn regex_ok(pattern: &str) -> (r: bool)
    ensures
        r == regex_valid(pattern@),
{
    regex::Regex::new(pattern).is_ok()
}

/// Relies on `regex::Regex::new` and `regex::Regex::is_match`: a compiled
/// pattern either matches somewhere in the text or does not, and the
/// answer depends on the pattern and the text alone. Returns `None`
/// exactly when the pattern does not compile.
#[verifier::external_body]
fn regex_search(pattern: &str, text: &str) -> (r: Option<bool>)
    ensures
        r is Some <==> regex_valid(pattern@),
        r matches Some(b) ==> b == regex_found(pattern@, text@),
{
    regex::Regex::new(pattern).ok().map(|re| re.is_match(text))
}

// ------------------------------------------------------------------
// AND-filtering of lines against patterns.
// ------------------------------------------------------------------

/// A line is kept iff it matches every pattern. With no patterns, every
/// line is kept.
pub open spec fn line_kept(line: Seq<char>, pats: Seq<Seq<char>>) -> bool {
    forall|i: int| 0 <= i < pats.len() ==> regex_found(pats[i], line)
}

/// Every pattern compiles.
pub open spec fn all_patterns_valid(pats: Seq<Seq<char>>) -> bool {
    forall|i: int| 0 <= i < pats.len() ==> regex_valid(pats[i])
}

/// Exactly the lines matching every pattern, in their original order.
pub open spec fn spec_filter_and(lines: Seq<Seq<char>>, pats: Seq<Seq<char>>) -> Seq<Seq<char>>
    decreases lines.len(),
{
    if lines.len() == 0 {
        Seq::empty()
    } else {
        let rest = spec_filter_and(lines.drop_last(), pats);
        if line_kept(lines.last(), pats) {
            rest.push(lines.last())
        } else {
            rest
        }
    }
}

/// With an empty pattern list, the filter keeps every line, unchanged and
/// in order.
pub proof fn lemma_filter_and_empty(lines: Seq<Seq<char>>, pats: Seq<Seq<char>>)
    requires
        pats.len() == 0,
    ensures
        spec_filter_and(lines, pats) == lines,
    decreases lines.len(),
{
    if lines.len() == 0 {
        assert(spec_filter_and(lines, pats) =~= lines);
    } else {
        lemma_filter_and_empty(lines.drop_last(), pats);
        assert(line_kept(lines.last(), pats));
        assert(spec_filter_and(lines, pats) =~= lines);
    }
}

/// The filter keeps exactly the matching lines: a line occurs in the
/// result iff it occurs in the input and matches every pattern.
pub proof fn lemma_filter_and_exact(lines: Seq<Seq<char>>, pats: Seq<Seq<char>>)
    ensures
        forall|l: Seq<char>|
            #[trigger] spec_filter_and(lines, pats).contains(l) <==> (lines.contains(l)
                && line_kept(l, pats)),
    decreases lines.len(),
{
    if lines.len() == 0 {
        assert forall|l: Seq<char>|
            #[trigger] spec_filter_and(lines, pats).contains(l) <==> (lines.contains(l)
                && line_kept(l, pats)) by {
            assert(!spec_filter_and(lines, pats).contains(l));
            assert(!lines.contains(l));
        }
    } else {
        lemma_filter_and_exact(lines.drop_last(), pats);
        let prev = lines.drop_last();
        let rest = spec_filter_and(prev, pats);
        let last = lines.last();
        assert forall|l: Seq<char>|
            #[trigger] spec_filter_and(lines, pats).contains(l) <==> (lines.contains(l)
                && line_kept(l, pats)) by {
            assert(rest.push(last).contains(l) <==> (rest.contains(l) || l == last)) by {
                if rest.push(last).contains(l) {
                    let i = choose|i: int| 0 <= i < rest.push(last).len() && rest.push(last)[i] == l;
                    if i < rest.len() {
                        assert(rest[i] == l);
                    }
                } else {
                    if rest.contains(l) {
                        let i = choose|i: int| 0 <= i < rest.len() && rest[i] == l;
                        assert(rest.push(last)[i] == l);
                    }
                    assert(rest.push(last)[rest.len() as int] == last);
                }
            }
            assert(lines.contains(l) <==> (prev.contains(l) || l == last)) by {
                if lines.contains(l) {
                    let i = choose|i: int| 0 <= i < lines.len() && lines[i] == l;
                    if i < prev.len() {
                        assert(prev[i] == l);
                    }
                } else {
                    if prev.contains(l) {
                        let i = choose|i: int| 0 <= i < prev.len() && prev[i] == l;
                        assert(lines[i] == l);
                    }
                    assert(lines[lines.len() - 1] == last);
                }
            }
        }
    }
}

/// Keeps the lines that match every pattern (regular-expression search,
/// not full match), in their original order: the AND semantics across
/// multiple search terms. Returns `None` exactly when some pattern does
/// not compile; the pattern list may be empty, and then every line
/// passes.
pub fn filter_and(lines: &Vec<String>, patterns: &Vec<String>) -> (r: Option<Vec<String>>)
    ensures
        r is Some <==> all_patterns_valid(views(patterns@)),
        r matches Some(kept) ==> views(kept@) == spec_filter_and(
            views(lines@),
            views(patterns@),
        ),
{
    let ghost pats = views(patterns@);
    let mut p: usize = 0;
    while p < patterns.len()
        invariant
            p <= patterns@.len(),
            pats == views(patterns@),
            forall|k: int| 0 <= k < p ==> regex_valid(pats[k]),
        decreases patterns@.len() - p,
    {
        if !regex_ok(patterns[p].as_str()) {
            proof {
                assert(pats[p as int] == patterns@[p as int]@);
                assert(!regex_valid(pats[p as int]));
            }
            return None;
        }
        p += 1;
    }
    let mut out: Vec<String> = Vec::new();
    let mut i: usize = 0;
    while i < lines.len()
        invariant
            i <= lines@.len(),
            pats == views(patterns@),
            all_patterns_valid(pats),
            views(out@) == spec_filter_and(views(lines@).take(i as int), pats),
        decreases lines@.len() - i,
    {
        let line = &lines[i];
        let mut all = true;
        let mut j: usize = 0;
        while j < patterns.len()
            invariant
                j <= patterns@.len(),
                i < lines@.len(),
                pats == views(patterns@),
                all_patterns_valid(pats),
                line@ == lines@[i as int]@,
                all <==> (forall|k: int| 0 <= k < j ==> regex_found(pats[k], line@)),
            decreases patterns@.len() - j,
        {
            let sr = regex_search(patterns[j].as_str(), line.as_str());
            proof {
                assert(pats[j as int] == patterns@[j as int]@);
                assert(regex_valid(pats[j as int]));
            }
            let b = match sr {
                Some(b) => b,
                None => {
                    proof {
                        assert(false);
                    }
                    false
                },
            };
            proof {
                assert(b == regex_found(pats[j as int], line@));
                if all && b {
                    assert forall|k: int| 0 <= k < j + 1 implies regex_found(
                        pats[k],
                        line@,
                    ) by {
                        if k == j {
                            assert(regex_found(pats[k], line@));
                        }
                    }
                }
            }
            if !b {
                all = false;
            }
            j += 1;
        }
        let ghost outpre = views(out@);
        if all {
            out.push(line.clone());
            proof {
                assert(views(out@) =~= outpre.push(lines@[i as int]@));
            }
        }
        proof {
            let lvs = views(lines@);
            assert(lvs.take(i as int + 1).drop_last() =~= lvs.take(i as int));
            assert(lvs.take(i as int + 1).last() == lvs[i as int]);
            assert(line_kept(lvs[i as int], pats) <==> all);
            assert(views(out@) =~= spec_filter_and(lvs.take(i as int + 1), pats));
        }
        i += 1;
    }
    proof {
        assert(views(lines@).take(lines@.len() as int) =~= views(lines@));
    }
    Some(out)
}

// ------------------------------------------------------------------
// Splitting captured output into lines.
// ------------------------------------------------------------------

/// One segment of a raw split, with a final carriage return trimmed.
pub open spec fn trim_cr(line: Seq<char>) -> Seq<char> {
    if line.len() > 0 && line.last() == '\r' {
        line.drop_last()
    } else {
        line
    }
}

/// The segments of the text between newline characters. The final line
/// ending is optional: a trailing newline adds no empty final segment.
pub open spec fn raw_lines(text: Seq<char>) -> Seq<Seq<char>>
    decreases text.len(),
{
    if text.len() == 0 {
        Seq::empty()
    } else if text.first() == '\n' {
        seq![Seq::<char>::empty()] + raw_lines(text.drop_first())
    } else {
        let rest = raw_lines(text.drop_first());
        if rest.len() == 0 {
            seq![seq![text.first()]]
        } else {
            rest.update(0, seq![text.first()] + rest[0])
        }
    }
}

/// The lines of captured output: the text split at newlines, each line
/// with a final carriage return trimmed.
pub open spec fn spec_lines(text: Seq<char>) -> Seq<Seq<char>> {
    raw_lines(text).map_values(|l: Seq<char>| trim_cr(l))
}

/// A text without newlines is one single segment.
proof fn lemma_raw_lines_no_newline(s: Seq<char>)
    requires
        s.len() > 0,
        forall|j: int| 0 <= j < s.len() ==> s[j] != '\n',
    ensures
        raw_lines(s) == seq![s],
    decreases s.len(),
{
    if s.len() == 1 {
        assert(s.drop_first().len() == 0);
        assert(raw_lines(s.drop_first()) =~= Seq::<Seq<char>>::empty());
        assert(seq![s.first()] =~= s);
        assert(raw_lines(s) =~= seq![s]);
    } else {
        let d = s.drop_first();
        assert forall|j: int| 0 <= j < d.len() implies d[j] != '\n' by {
            assert(d[j] == s[j + 1]);
        }
        lemma_raw_lines_no_newline(d);
        assert(raw_lines(d)[0] == d);
        assert(raw_lines(s) == raw_lines(d).update(0, seq![s.first()] + d));
        assert(seq![s.first()] + d =~= s);
        assert(raw_lines(s) =~= seq![s]);
    }
}

/// Splitting at the first newline: the segment before it, then the
/// segments of what follows it.
proof fn lemma_raw_lines_until_newline(s: Seq<char>, k: int)
    requires
        0 <= k < s.len(),
        s[k] == '\n',
        forall|j: int| 0 <= j < k ==> s[j] != '\n',
    ensures
        raw_lines(s) == seq![s.take(k)] + raw_lines(s.skip(k + 1)),
    decreases k,
{
    if k == 0 {
        assert(s.take(0) =~= Seq::<char>::empty());
        assert(s.skip(1) =~= s.drop_first());
        assert(raw_lines(s) =~= seq![s.take(0)] + raw_lines(s.skip(1)));
    } else {
        let d = s.drop_first();
        lemma_raw_lines_until_newline(d, k - 1);
        let rest = raw_lines(d);
        assert(rest == seq![d.take(k - 1)] + raw_lines(d.skip(k - 1 + 1)));
        assert(rest[0] == d.take(k - 1));
        assert(seq![s.first()] + d.take(k - 1) =~= s.take(k));
        assert(d.skip(k) =~= s.skip(k + 1));
        assert(raw_lines(s) =~= seq![s.take(k)] + raw_lines(s.skip(k + 1)));
    }
}

/// Splits captured output into its lines: split at newlines, each line
/// with a final carriage return trimmed, the final line ending optional.
pub fn split_lines(text: &str) -> (r: Vec<String>)
    ensures
        views(r@) == spec_lines(text@),
{
    let n = text.unicode_len();
    let mut out: Vec<String> = Vec::new();
    let mut start: usize = 0;
    let mut i: usize = 0;
    proof {
        assert(text@.skip(0) =~= text@);
        assert(views(out@) + spec_lines(text@.skip(0)) =~= spec_lines(text@));
    }
    while i < n
        invariant
            start <= i <= n,
            n == text@.len(),
            forall|j: int| start <= j < i ==> text@[j] != '\n',
            views(out@) + spec_lines(text@.skip(start as int)) =~= spec_lines(text@),
        decreases n - i,
    {
        if text.get_char(i) == '\n' {
            let end = if i > start && text.get_char(i - 1) == '\r' {
                i - 1
            } else {
                i
            };
            let seg = text.substring_char(start, end).to_owned();
            let ghost outpre = views(out@);
            let ghost tail = text@.skip(start as int);
            out.push(seg);
            proof {
                lemma_raw_lines_until_newline(tail, i - start as int);
                assert(tail.take(i - start as int) =~= text@.subrange(start as int, i as int));
                assert(tail.skip(i - start as int + 1) =~= text@.skip(i as int + 1));
                assert(seg@ =~= trim_cr(tail.take(i - start as int)));
                assert(views(out@) =~= outpre.push(seg@));
                assert(spec_lines(tail) =~= seq![trim_cr(tail.take(i - start as int))]
                    + spec_lines(text@.skip(i as int + 1)));
                assert(views(out@) + spec_lines(text@.skip(i as int + 1)) =~= spec_lines(
                    text@,
                ));
            }
            start = i + 1;
        }
        i += 1;
    }
    if start < n {
        let end = if text.get_char(n - 1) == '\r' {
            n - 1
        } else {
            n
        };
        let seg = text.substring_char(start, end).to_owned();
        let ghost outpre = views(out@);
        let ghost tail = text@.skip(start as int);
        out.push(seg);
        proof {
            lemma_raw_lines_no_newline(tail);
            assert(seg@ =~= trim_cr(tail));
            assert(views(out@) =~= outpre.push(seg@));
            assert(spec_lines(tail) =~= seq![trim_cr(tail)]);
            assert(views(out@) =~= spec_lines(text@));
        }
    } else {
        proof {
            assert(text@.skip(start as int) =~= Seq::<char>::empty());
            assert(spec_lines(Seq::<char>::empty()) =~= Seq::<Seq<char>>::empty());
            assert(views(out@) =~= spec_lines(text@));
        }
    }
    out
}

// ------------------------------------------------------------------
// State classification from textual markers.
// ------------------------------------------------------------------

/// The states a probe of a backend's catalog can reveal about one
/// package, derived fresh from each probe's output and never cached.
#[derive(Clone, Copy, Debug, PartialEq, Eq, Structural)]
pub enum CaskState {
    /// The package exists in no channel.
    NotFound,
    /// Only the alternate channel carries the package.
    AlternateChannelNeeded,
    /// The default channel carries the package.
    DefaultChannelSufficient,
}

/// The marker occurs in the text: some window of the text equals it.
pub open spec fn contains_marker(text: Seq<char>, marker: Seq<char>) -> bool {
    exists|i: int|
        0 <= i && i + marker.len() <= text.len() && #[trigger] text.subrange(
            i,
            i + marker.len() as int,
        ) == marker
}

/// A marker rule set for classification: a primary marker, a secondary
/// marker whose presence overrides the primary's default interpretation,
/// and the state assigned to each branch of the decision tree.
#[derive(Clone, Debug, PartialEq, Eq)]
pub struct MarkerRules {
    /// The primary marker substring.
    pub primary: String,
    /// The secondary marker substring, consulted only where the primary
    /// is present.
    pub secondary: String,
    /// The declared default: the state when the primary marker is absent.
    pub absent: CaskState,
    /// The state when the primary marker is present but the secondary is
    /// not.
    pub primary_only: CaskState,
    /// The state when both markers are present.
    pub both: CaskState,
}

/// The classification decision tree: presence of the primary marker
/// selects between `primary_only` and `both` by the secondary marker;
/// its absence yields the declared default.
pub open spec fn spec_classify(text: Seq<char>, rules: MarkerRules) -> CaskState {
    if contains_marker(text, rules.primary@) {
        if contains_marker(text, rules.secondary@) {
            rules.both
        } else {
            rules.primary_only
        }
    } else {
        rules.absent
    }
}

/// Classifies captured output into a state from the presence or absence
/// of the marker substrings. Total: absence of all markers yields the
/// declared default state, never an error.
pub fn classify(text: &str, rules: &MarkerRules) -> (r: CaskState)
    ensures
        r == spec_classify(text@, *rules),
{
    if find_marker(text, rules.primary.as_str()) {
        if find_marker(text, rules.secondary.as_str()) {
            rules.both
        } else {
            rules.primary_only
        }
    } else {
        rules.absent
    }
}

/// Classification is deterministic — two results from the same text and
/// rule set are equal — and the absence of the primary marker always
/// yields the declared default state.
pub proof fn lemma_classify_deterministic(
    text: Seq<char>,
    rules: MarkerRules,
    r1: CaskState,
    r2: CaskState,
)
    requires
        r1 == spec_classify(text, rules),
        r2 == spec_classify(text, rules),
    ensures
        r1 == r2,
        !contains_marker(text, rules.primary@) ==> r1 == rules.absent,
{
}

/// Whether the marker occurs as a contiguous substring of the text.
pub fn find_marker(text: &str, marker: &str) -> (r: bool)
    ensures
        r == contains_marker(text@, marker@),
{
    let n = text.unicode_len();
    let m = marker.unicode_len();
    if m > n {
        return false;
    }
    if m == 0 {
        proof {
            assert(text@.subrange(0, 0 + marker@.len() as int) =~= marker@);
            assert(contains_marker(text@, marker@));
        }
        return true;
    }
    let mut i: usize = 0;
    while i <= n - m
        invariant
            0 < m <= n,
            n == text@.len(),
            m == marker@.len(),
            i <= n - m + 1,
            forall|k: int|
                0 <= k < i ==> #[trigger] text@.subrange(k, k + marker@.len() as int)
                    != marker@,
        decreases n - i,
    {
        if window_eq(text, marker, i) {
            return true;
        }
        i += 1;
    }
    false
}

/// Whether the window of `text` starting at `i` equals `marker`.
fn window_eq(text: &str, marker: &str, i: usize) -> (r: bool)
    requires
        i + marker@.len() <= text@.len(),
        text@.len() <= usize::MAX,
    ensures
        r == (text@.subrange(i as int, i as int + marker@.len() as int) == marker@),
{
    let m = marker.unicode_len();
    let mut j: usize = 0;
    while j < m
        invariant
            j <= m,
            m == marker@.len(),
            i + m <= text@.len(),
            text@.len() <= usize::MAX,
            forall|k: int| 0 <= k < j ==> text@[i + k] == marker@[k],
        decreases m - j,
    {
        if text.get_char(i + j) != marker.get_char(j) {
            proof {
                assert(text@.subrange(i as int, i as int + marker@.len() as int)[j as int]
                    == text@[i + j]);
            }
            return false;
        }
        j += 1;
    }
    proof {
        assert(text@.subrange(i as int, i as int + marker@.len() as int) =~= marker@);
    }
    true
}

} // verus!
