//! The save viewer's entry filter: a case-insensitive regular expression,
//! or, when the pattern does not compile, a case-insensitive substring.
//! Matches are reported as byte ranges of the searched text.

use vstd::prelude::*;
use crate::text::{contains, find_from, lemma_find_from_bounds, match_at, matches_at, str_chars, utf8_bytes_len, utf8_len};

verus! {

// ── Outside calls ────────────────────────────────────

/// The successive non-overlapping matches, as byte ranges, that the
/// `regex` crate finds in a haystack with the case-insensitive regex of a
/// pattern that compiled.
pub uninterp spec fn regex_match_spans(pattern: Seq<char>, haystack: Seq<char>) -> Seq<(usize, usize)>;

/// `str::to_lowercase`: the Unicode lowercase mapping of a text.
pub uninterp spec fn unicode_lowercase(s: Seq<char>) -> Seq<char>;

#[verifier::external_type_specification]
#[verifier::external_body]
pub struct ExRegex(regex::Regex);

/// A pattern together with the case-insensitive regex it compiled to. Only
/// `regex_build` makes one, so the regex is always that of the pattern.
pub struct CompiledRegex {
    pattern: String,
    re: regex::Regex,
}

impl CompiledRegex {
    /// The pattern the regex was compiled from.
    pub closed spec fn pattern_view(self) -> Seq<char> {
        self.pattern@
    }
}

/// `regex::RegexBuilder::new(pattern).case_insensitive(true).build()`,
/// kept with the pattern it was given. Nothing is stated of whether the
/// pattern compiles: the crate's default size limit is counted in bytes of
/// the compiled automaton, which depend on the target's pointer width, so
/// a pattern near the limit can compile on one machine and fail on another.
#[verifier::external_body]
fn regex_build(pattern: &str) -> (r: Option<CompiledRegex>)
    ensures
        r matches Some(c) ==> c.pattern_view() == pattern@,
{
    match regex::RegexBuilder::new(pattern).case_insensitive(true).build() {
        Ok(re) => Some(CompiledRegex { pattern: pattern.to_string(), re }),
        Err(_) => None,
    }
}

/// `Regex::find_iter` of a compiled regex, as `(start, end)` byte offsets:
/// the named matches of its pattern. The contract also claims what the
/// crate's documentation gives: each match has `start <= end <= haystack
/// length in bytes`, and the matches come in order without overlapping.
#[verifier::external_body]
fn regex_find_spans(c: &CompiledRegex, haystack: &str) -> (r: Vec<(usize, usize)>)
    ensures
        r@ == regex_match_spans(c.pattern_view(), haystack@),
        forall|i: int|
            #![trigger r@[i]]
            0 <= i < r@.len() ==> r@[i].0 <= r@[i].1 <= vstd::utf8::encode_utf8(haystack@).len(),
        forall|i: int, j: int| #![trigger r@[i], r@[j]] 0 <= i < j < r@.len() ==> r@[i].1 <= r@[j].0,
{
    c.re.find_iter(haystack).map(|m| (m.start(), m.end())).collect()
}

/// `Regex::is_match` of a compiled regex: the crate documents it as true
/// exactly when the haystack holds a match, that is when `find_iter`
/// yields one.
#[verifier::external_body]
fn regex_is_match(c: &CompiledRegex, haystack: &str) -> (r: bool)
    ensures
        r == (regex_match_spans(c.pattern_view(), haystack@).len() > 0),
{
    c.re.is_match(haystack)
}

/// `str::to_lowercase`; the contract names its result.
#[verifier::external_body]
fn to_lowercase(s: &str) -> (r: String)
    ensures
        r@ == unicode_lowercase(s@),
{
    s.to_lowercase()
}

// ── Substring matches ────────────────────────────────

/// `str::match_indices` by chars: the leftmost non-overlapping occurrences
/// of `p` in `s` from position `i`, as char ranges. An empty `p` occurs at
/// every position.
pub open spec fn plain_spans(s: Seq<char>, p: Seq<char>, i: int) -> Seq<(int, int)>
    decreases s.len() + 1 - i,
{
    if i < 0 || i > s.len() {
        Seq::empty()
    } else {
        match find_from(s, p, i) {
            Some(k) => {
                proof {
                    lemma_find_from_bounds(s, p, i);
                }
                seq![(k, k + p.len())] + plain_spans(
                    s,
                    p,
                    if p.len() == 0 {
                        k + 1
                    } else {
                        k + p.len()
                    },
                )
            },
            None => Seq::empty(),
        }
    }
}

/// Char ranges of `s` as byte ranges of its UTF-8 encoding.
pub open spec fn byte_spans(s: Seq<char>, spans: Seq<(int, int)>) -> Seq<(int, int)> {
    spans.map_values(
        |sp: (int, int)| (utf8_bytes_len(s.take(sp.0)) as int, utf8_bytes_len(s.take(sp.1)) as int),
    )
}

pub open spec fn spans_view(v: Seq<(usize, usize)>) -> Seq<(int, int)> {
    v.map_values(|sp: (usize, usize)| (sp.0 as int, sp.1 as int))
}

proof fn lemma_bytes_len_push(s: Seq<char>, k: int)
    requires
        0 <= k < s.len(),
    ensures
        utf8_bytes_len(s.take(k + 1)) == utf8_bytes_len(s.take(k)) + utf8_len(s[k]),
{
    assert(s.take(k + 1).drop_last() =~= s.take(k));
}

proof fn lemma_bytes_len_monotone(s: Seq<char>, a: int, b: int)
    requires
        0 <= a <= b <= s.len(),
    ensures
        utf8_bytes_len(s.take(a)) <= utf8_bytes_len(s.take(b)),
    decreases b - a,
{
    if a < b {
        lemma_bytes_len_push(s, b - 1);
        lemma_bytes_len_monotone(s, a, b - 1);
    }
}

/// The UTF-8 byte length agrees with the encoding's length.
proof fn lemma_encode_len(s: Seq<char>)
    ensures
        vstd::utf8::encode_utf8(s).len() == utf8_bytes_len(s),
    decreases s.len(),
{
    if s.len() > 0 {
        lemma_encode_len(s.drop_first());
        lemma_bytes_len_first(s);
        let u = s[0] as u32;
        vstd::utf8::char_is_scalar(s[0]);
        assert(vstd::utf8::encode_scalar(u).len() == utf8_len(s[0]));
    }
}

proof fn lemma_bytes_len_first(s: Seq<char>)
    requires
        s.len() > 0,
    ensures
        utf8_bytes_len(s) == utf8_len(s[0]) + utf8_bytes_len(s.drop_first()),
    decreases s.len(),
{
    if s.len() > 1 {
        lemma_bytes_len_first(s.drop_last());
        assert(s.drop_last().drop_first() =~= s.drop_first().drop_last());
        assert(s.drop_last()[0] == s[0]);
        assert(s.drop_first().last() == s.last());
    } else {
        assert(s.drop_last() =~= Seq::<char>::empty());
        assert(s.drop_first() =~= Seq::<char>::empty());
    }
}

proof fn lemma_find_from_none_after(s: Seq<char>, p: Seq<char>, i: int, j: int)
    requires
        0 <= i <= j,
        forall|m: int| i <= m < j ==> !match_at(s, p, m),
    ensures
        find_from(s, p, i) == find_from(s, p, j),
    decreases j - i,
{
    if i < j {
        lemma_find_from_none_after(s, p, i + 1, j);
    }
}

/// The byte ranges of the non-overlapping occurrences of `p` in `s`.
fn plain_match_spans(s: &[char], p: &[char], total_bytes: usize) -> (r: Vec<(usize, usize)>)
    requires
        utf8_bytes_len(s@) == total_bytes,
    ensures
        spans_view(r@) == byte_spans(s@, plain_spans(s@, p@, 0)),
{
    let n = s.len();
    let m = p.len();
    let mut out: Vec<(usize, usize)> = Vec::new();
    // next position to search from, and its byte offset
    let mut i: usize = 0;
    let mut bi: usize = 0;
    // whether the search has run past the end
    let mut done = false;
    assert(s@.take(0) =~= Seq::<char>::empty());
    while !done
        invariant
            n == s@.len(),
            m == p@.len(),
            utf8_bytes_len(s@) == total_bytes,
            i <= n,
            bi == utf8_bytes_len(s@.take(i as int)),
            done ==> spans_view(out@) == byte_spans(s@, plain_spans(s@, p@, 0)),
            !done ==> spans_view(out@) + byte_spans(s@, plain_spans(s@, p@, i as int)) == byte_spans(
                s@,
                plain_spans(s@, p@, 0),
            ),
        decreases 2 * (n + 1 - i) + (if done {
            0int
        } else {
            1int
        }),
    {
        // scan j from i for the next occurrence, tracking its byte offset
        let mut j: usize = i;
        let mut bj: usize = bi;
        let mut found = false;
        while m <= n && j <= n - m && !found
            invariant
                n == s@.len(),
                m == p@.len(),
                utf8_bytes_len(s@) == total_bytes,
                i <= j <= n,
                bj == utf8_bytes_len(s@.take(j as int)),
                found ==> match_at(s@, p@, j as int),
                forall|k: int| i <= k < j ==> !match_at(s@, p@, k),
            decreases 2 * (n + 1 - j) + (if found {
                0int
            } else {
                1int
            }),
        {
            if matches_at(s, p, j) {
                found = true;
            } else {
                proof {
                    if m == 0 {
                        assert(s@.subrange(j as int, j as int) =~= p@);
                    }
                    lemma_bytes_len_push(s@, j as int);
                    lemma_bytes_len_monotone(s@, j + 1, n as int);
                    assert(s@.take(n as int) =~= s@);
                }
                bj = bj + utf8_len_usize(s[j]);
                j = j + 1;
            }
        }
        if found {
            proof {
                lemma_find_from_none_after(s@, p@, i as int, j as int);
                lemma_find_from_bounds(s@, p@, i as int);
            }
            // byte offset of the match's end
            let mut e: usize = j;
            let mut be: usize = bj;
            while e < j + m
                invariant
                    n == s@.len(),
                    j + m <= n,
                    j <= e <= j + m,
                    utf8_bytes_len(s@) == total_bytes,
                    be == utf8_bytes_len(s@.take(e as int)),
                decreases j + m - e,
            {
                proof {
                    lemma_bytes_len_push(s@, e as int);
                    lemma_bytes_len_monotone(s@, e + 1, n as int);
                    assert(s@.take(n as int) =~= s@);
                }
                be = be + utf8_len_usize(s[e]);
                e = e + 1;
            }
            let ghost before = spans_view(out@);
            out.push((bj, be));
            assert(spans_view(out@) =~= before + seq![(bj as int, be as int)]);
            let ghost next: int = if m == 0 {
                j + 1
            } else {
                j + m
            };
            let ghost rest = plain_spans(s@, p@, next);
            assert(plain_spans(s@, p@, i as int) =~= seq![(j as int, j + m)] + rest);
            assert(byte_spans(s@, plain_spans(s@, p@, i as int)) =~= seq![(bj as int, be as int)]
                + byte_spans(s@, rest));
            if m == 0 && j == n {
                assert(rest =~= Seq::<(int, int)>::empty());
                assert(spans_view(out@) =~= byte_spans(s@, plain_spans(s@, p@, 0)));
                done = true;
            } else {
                if m == 0 {
                    proof {
                        lemma_bytes_len_push(s@, j as int);
                        lemma_bytes_len_monotone(s@, j + 1, n as int);
                        assert(s@.take(n as int) =~= s@);
                    }
                    bi = bj + utf8_len_usize(s[j]);
                    i = j + 1;
                } else {
                    bi = be;
                    i = j + m;
                }
                assert(spans_view(out@) + byte_spans(s@, plain_spans(s@, p@, i as int)) =~= byte_spans(
                    s@,
                    plain_spans(s@, p@, 0),
                ));
            }
        } else {
            proof {
                lemma_find_from_none_after(s@, p@, i as int, j as int);
            }
            assert(plain_spans(s@, p@, i as int) =~= Seq::<(int, int)>::empty());
            assert(spans_view(out@) =~= byte_spans(s@, plain_spans(s@, p@, 0)));
            done = true;
        }
    }
    out
}

fn utf8_len_usize(c: char) -> (r: usize)
    ensures
        r == utf8_len(c),
{
    let u = c as u32;
    if u < 0x80 {
        1
    } else if u < 0x800 {
        2
    } else if u < 0x10000 {
        3
    } else {
        4
    }
}

// ── The filter ───────────────────────────────────────

/// What a filter matches with: a regular expression that compiles, a
/// lowercased substring, or everything.
pub enum FilterView {
    Regex(Seq<char>),
    Plain(Seq<char>),
    Empty,
}

enum FilterKind {
    Regex(CompiledRegex),
    Plain(String),
    Empty,
}

/// A compiled entry filter.
pub struct Filter {
    kind: FilterKind,
}

impl View for Filter {
    type V = FilterView;

    closed spec fn view(&self) -> FilterView {
        match self.kind {
            FilterKind::Regex(c) => FilterView::Regex(c.pattern_view()),
            FilterKind::Plain(p) => FilterView::Plain(p@),
            FilterKind::Empty => FilterView::Empty,
        }
    }
}

/// Whether a text passes a filter.
pub open spec fn filter_match_spec(f: FilterView, text: Seq<char>) -> bool {
    match f {
        FilterView::Empty => true,
        FilterView::Regex(p) => regex_match_spans(p, text).len() > 0,
        FilterView::Plain(p) => contains(unicode_lowercase(text), p),
    }
}

/// The byte ranges a filter highlights in a text.
pub open spec fn filter_spans_spec(f: FilterView, text: Seq<char>) -> Seq<(int, int)> {
    match f {
        FilterView::Empty => Seq::empty(),
        FilterView::Regex(p) => spans_view(regex_match_spans(p, text)),
        FilterView::Plain(p) => byte_spans(
            unicode_lowercase(text),
            plain_spans(unicode_lowercase(text), p, 0),
        ),
    }
}

/// A text passes a non-empty filter exactly when the filter highlights
/// something in it.
pub proof fn lemma_match_iff_highlight(f: FilterView, text: Seq<char>)
    requires
        !(f is Empty),
    ensures
        filter_match_spec(f, text) <==> filter_spans_spec(f, text).len() > 0,
{
    match f {
        FilterView::Plain(p) => {
            let s = unicode_lowercase(text);
            lemma_find_from_bounds(s, p, 0);
        },
        _ => {},
    }
}

impl Filter {
    /// Compiles a filter pattern; the flag is false when a non-empty
    /// pattern does not compile as a regular expression (here) and is
    /// matched as plain text instead.
    pub fn compile(pattern: &str) -> (r: (Filter, bool))
        ensures
            pattern@.len() == 0 ==> r.0@ == FilterView::Empty && r.1,
            pattern@.len() > 0 && r.1 ==> r.0@ == FilterView::Regex(pattern@),
            pattern@.len() > 0 && !r.1 ==> r.0@ == FilterView::Plain(unicode_lowercase(pattern@)),
    {
        if str_chars(pattern).len() == 0 {
            return (Filter { kind: FilterKind::Empty }, true);
        }
        match regex_build(pattern) {
            Some(c) => (Filter { kind: FilterKind::Regex(c) }, true),
            None => (Filter { kind: FilterKind::Plain(to_lowercase(pattern)) }, false),
        }
    }

    /// Whether a text passes the filter: always for an empty filter, when
    /// the regex matches somewhere, or when the lowercased text holds the
    /// lowercased pattern.
    pub fn is_match(&self, text: &str) -> (r: bool)
        ensures
            r == filter_match_spec(self@, text@),
    {
        match &self.kind {
            FilterKind::Empty => true,
            FilterKind::Regex(c) => regex_is_match(c, text),
            FilterKind::Plain(p) => {
                let lower = to_lowercase(text);
                let lc = str_chars(lower.as_str());
                let pc = str_chars(p.as_str());
                crate::text::find_chars(lc.as_slice(), pc.as_slice()).is_some()
            },
        }
    }

    /// The byte ranges of the filter's matches in a text: none for an
    /// empty filter, the regex's matches, or the occurrences of the
    /// pattern in the lowercased text (ranges of that text).
    pub fn find_iter(&self, text: &str) -> (r: Vec<(usize, usize)>)
        ensures
            spans_view(r@) == filter_spans_spec(self@, text@),
            self@ matches FilterView::Regex(p) ==> r@ == regex_match_spans(p, text@),
    {
        match &self.kind {
            FilterKind::Empty => Vec::new(),
            FilterKind::Regex(c) => regex_find_spans(c, text),
            FilterKind::Plain(p) => {
                let lower = to_lowercase(text);
                let total = lower.as_str().as_bytes().len();
                proof {
                    lemma_encode_len(lower@);
                }
                let lc = str_chars(lower.as_str());
                let pc = str_chars(p.as_str());
                plain_match_spans(lc.as_slice(), pc.as_slice(), total)
            },
        }
    }
}

} // verus!
