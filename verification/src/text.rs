//! Character-sequence model of text and the scanning primitives the parsers
//! are built from. Text is handled as `Seq<char>`; every exec helper states its
//! result over that model.

use vstd::prelude::*;

verus! {

/// Unicode `White_Space`, the set that `char::is_whitespace` and `str::trim` use.
pub open spec fn is_ws(c: char) -> bool {
    let u = c as u32;
    ||| 0x09 <= u <= 0x0D
    ||| u == 0x20
    ||| u == 0x85
    ||| u == 0xA0
    ||| u == 0x1680
    ||| 0x2000 <= u <= 0x200A
    ||| u == 0x2028
    ||| u == 0x2029
    ||| u == 0x202F
    ||| u == 0x205F
    ||| u == 0x3000
}

pub open spec fn is_ascii_digit(c: char) -> bool {
    '0' as u32 <= c as u32 <= '9' as u32
}

pub open spec fn is_ascii_upper(c: char) -> bool {
    'A' as u32 <= c as u32 <= 'Z' as u32
}

pub open spec fn is_ascii_lower(c: char) -> bool {
    'a' as u32 <= c as u32 <= 'z' as u32
}

pub open spec fn is_ascii_alphanumeric(c: char) -> bool {
    is_ascii_digit(c) || is_ascii_upper(c) || is_ascii_lower(c)
}

pub open spec fn is_ascii_hexdigit(c: char) -> bool {
    ||| is_ascii_digit(c)
    ||| 'a' as u32 <= c as u32 <= 'f' as u32
    ||| 'A' as u32 <= c as u32 <= 'F' as u32
}

/// `char::to_ascii_lowercase`.
pub open spec fn lower_char(c: char) -> char {
    if is_ascii_upper(c) {
        ((c as u32) + 32) as char
    } else {
        c
    }
}

/// `str::to_ascii_lowercase`.
pub open spec fn lower(s: Seq<char>) -> Seq<char> {
    s.map_values(|c: char| lower_char(c))
}

/// View of an optional string.
pub open spec fn opt_view(o: Option<&str>) -> Option<Seq<char>> {
    match o {
        Some(s) => Some(s@),
        None => None,
    }
}

/// The first present value of `s`.
pub open spec fn first_some<A>(s: Seq<Option<A>>) -> Option<A>
    decreases s.len(),
{
    if s.len() == 0 {
        None
    } else if s[0] is Some {
        s[0]
    } else {
        first_some(s.drop_first())
    }
}

/// Unfolds `first_some` one element at a time along `s.skip(i)`.
pub proof fn lemma_first_some_step<A>(s: Seq<Option<A>>, i: int)
    requires
        0 <= i < s.len(),
    ensures
        s[i] is Some ==> first_some(s.skip(i)) == s[i],
        s[i] is None ==> first_some(s.skip(i)) == first_some(s.skip(i + 1)),
{
    assert(s.skip(i).drop_first() =~= s.skip(i + 1));
}

/// `first_some` of an exhausted suffix.
pub proof fn lemma_first_some_end<A>(s: Seq<Option<A>>)
    ensures
        first_some(s.skip(s.len() as int)) is None,
{
    assert(s.skip(s.len() as int) =~= Seq::<Option<A>>::empty());
}

/// Views of a sequence of owned strings.
pub open spec fn strings_view(v: Seq<String>) -> Seq<Seq<char>> {
    v.map_values(|s: String| s@)
}

/// `str::replace`: every occurrence of a non-empty `p`, left to right,
/// replaced by `r`.
pub open spec fn replace_all(s: Seq<char>, p: Seq<char>, r: Seq<char>) -> Seq<char>
    decreases s.len(),
{
    if p.len() == 0 {
        s
    } else {
        match find(s, p) {
            Some(i) => if 0 <= i && i + p.len() <= s.len() {
                s.take(i) + r + replace_all(s.skip(i + p.len()), p, r)
            } else {
                s
            },
            None => s,
        }
    }
}

/// Converts `s` to its sequence of chars.
pub(crate) fn str_chars(s: &str) -> (r: Vec<char>)
    ensures
        r@ == s@,
{
    broadcast use vstd::string::axiom_spec_iter;

    let mut out: Vec<char> = Vec::new();
    for c in it: s.chars()
        invariant
            it.seq() == s@,
            out@ == s@.take(it.index() as int),
    {
        out.push(c);
        assert(out@ =~= s@.take(it.index() + 1));
    }
    assert(s@.take(s@.len() as int) =~= s@);
    out
}

/// Builds a `String` from a sequence of chars.
#[verifier::external_body]
pub(crate) fn chars_to_string(v: &[char]) -> (r: String)
    ensures
        r@ == v@,
{
    v.iter().collect()
}

pub fn is_ws_char(c: char) -> (r: bool)
    ensures
        r == is_ws(c),
{
    let u = c as u32;
    (0x09 <= u && u <= 0x0D) || u == 0x20 || u == 0x85 || u == 0xA0 || u == 0x1680 || (0x2000
        <= u && u <= 0x200A) || u == 0x2028 || u == 0x2029 || u == 0x202F || u == 0x205F || u
        == 0x3000
}

pub fn is_digit_char(c: char) -> (r: bool)
    ensures
        r == is_ascii_digit(c),
{
    '0' as u32 <= c as u32 && c as u32 <= '9' as u32
}

pub fn is_hexdigit_char(c: char) -> (r: bool)
    ensures
        r == is_ascii_hexdigit(c),
{
    let u = c as u32;
    ('0' as u32 <= u && u <= '9' as u32) || ('a' as u32 <= u && u <= 'f' as u32) || ('A' as u32
        <= u && u <= 'F' as u32)
}

pub fn lower_char_exec(c: char) -> (r: char)
    ensures
        r == lower_char(c),
{
    let u = c as u32;
    if 'A' as u32 <= u && u <= 'Z' as u32 {
        ((u + 32) as u8) as char
    } else {
        c
    }
}


pub open spec fn starts_with(s: Seq<char>, p: Seq<char>) -> bool {
    p.len() <= s.len() && s.subrange(0, p.len() as int) == p
}

pub open spec fn ends_with(s: Seq<char>, p: Seq<char>) -> bool {
    p.len() <= s.len() && s.subrange(s.len() - p.len(), s.len() as int) == p
}

/// `s` holds `p` starting at position `i`.
pub open spec fn match_at(s: Seq<char>, p: Seq<char>, i: int) -> bool {
    0 <= i && i + p.len() <= s.len() && s.subrange(i, i + p.len()) == p
}

/// First position at or after `i` where `p` occurs.
pub open spec fn find_from(s: Seq<char>, p: Seq<char>, i: int) -> Option<int>
    decreases s.len() + 1 - i,
{
    if i < 0 || i + p.len() > s.len() {
        None
    } else if match_at(s, p, i) {
        Some(i)
    } else {
        find_from(s, p, i + 1)
    }
}

/// `str::find`: the first occurrence of `p` in `s`.
pub open spec fn find(s: Seq<char>, p: Seq<char>) -> Option<int> {
    find_from(s, p, 0)
}

/// Last occurrence of `p` that ends at or before `e`.
pub open spec fn rfind_upto(s: Seq<char>, p: Seq<char>, e: int) -> Option<int>
    decreases e + 1,
{
    if e < p.len() || e > s.len() {
        None
    } else if match_at(s, p, e - p.len()) {
        Some(e - p.len())
    } else {
        rfind_upto(s, p, e - 1)
    }
}

/// `str::rfind`: the last occurrence of `p` in `s`.
pub open spec fn rfind(s: Seq<char>, p: Seq<char>) -> Option<int> {
    rfind_upto(s, p, s.len() as int)
}

pub open spec fn contains(s: Seq<char>, p: Seq<char>) -> bool {
    find(s, p) is Some
}

/// `str::trim_start`.
pub open spec fn trim_start(s: Seq<char>) -> Seq<char>
    decreases s.len(),
{
    if s.len() > 0 && is_ws(s[0]) {
        trim_start(s.drop_first())
    } else {
        s
    }
}

/// `str::trim_end`.
pub open spec fn trim_end(s: Seq<char>) -> Seq<char>
    decreases s.len(),
{
    if s.len() > 0 && is_ws(s.last()) {
        trim_end(s.drop_last())
    } else {
        s
    }
}

/// `str::trim`.
pub open spec fn trim(s: Seq<char>) -> Seq<char> {
    trim_end(trim_start(s))
}

/// `str::strip_prefix`.
pub open spec fn strip_prefix(s: Seq<char>, p: Seq<char>) -> Option<Seq<char>> {
    if starts_with(s, p) {
        Some(s.subrange(p.len() as int, s.len() as int))
    } else {
        None
    }
}

/// `str::strip_suffix`.
pub open spec fn strip_suffix(s: Seq<char>, p: Seq<char>) -> Option<Seq<char>> {
    if ends_with(s, p) {
        Some(s.subrange(0, s.len() - p.len()))
    } else {
        None
    }
}

/// Copies `s[i..j]`.
pub fn copy_range(s: &[char], i: usize, j: usize) -> (r: Vec<char>)
    requires
        i <= j <= s@.len(),
    ensures
        r@ == s@.subrange(i as int, j as int),
{
    let mut r: Vec<char> = Vec::new();
    let mut k = i;
    while k < j
        invariant
            i <= k <= j <= s@.len(),
            r@ == s@.subrange(i as int, k as int),
        decreases j - k,
    {
        r.push(s[k]);
        k = k + 1;
        assert(r@ =~= s@.subrange(i as int, k as int));
    }
    r
}

/// Equality of two char sequences.
pub fn chars_eq(a: &[char], b: &[char]) -> (r: bool)
    ensures
        r == (a@ == b@),
{
    if a.len() != b.len() {
        return false;
    }
    let mut k: usize = 0;
    while k < a.len()
        invariant
            a@.len() == b@.len(),
            k <= a@.len(),
            forall|m: int| 0 <= m < k ==> a@[m] == b@[m],
        decreases a.len() - k,
    {
        if a[k] != b[k] {
            return false;
        }
        k = k + 1;
    }
    assert(a@ =~= b@);
    true
}

/// Equality with a string literal.
pub fn eq_lit(a: &[char], lit: &str) -> (r: bool)
    ensures
        r == (a@ == lit@),
{
    let b = str_chars(lit);
    chars_eq(a, b.as_slice())
}

/// `s` holds `p` at position `i`.
pub fn matches_at(s: &[char], p: &[char], i: usize) -> (r: bool)
    ensures
        r == match_at(s@, p@, i as int),
{
    let n = s.len();
    if i > n || p.len() > n - i {
        return false;
    }
    let mut k: usize = 0;
    while k < p.len()
        invariant
            n == s@.len(),
            i + p@.len() <= n,
            k <= p@.len(),
            forall|m: int| 0 <= m < k ==> s@[i + m] == p@[m],
        decreases p.len() - k,
    {
        assert(i + k < s@.len());
        if s[i + k] != p[k] {
            assert(s@.subrange(i as int, i + p@.len())[k as int] != p@[k as int]);
            return false;
        }
        k = k + 1;
    }
    assert(s@.subrange(i as int, i + p@.len()) =~= p@);
    true
}

pub fn starts_with_chars(s: &[char], p: &[char]) -> (r: bool)
    ensures
        r == starts_with(s@, p@),
{
    let r = matches_at(s, p, 0);
    assert(r == starts_with(s@, p@));
    r
}

pub fn starts_with_lit(s: &[char], lit: &str) -> (r: bool)
    ensures
        r == starts_with(s@, lit@),
{
    let p = str_chars(lit);
    starts_with_chars(s, p.as_slice())
}

pub fn ends_with_chars(s: &[char], p: &[char]) -> (r: bool)
    ensures
        r == ends_with(s@, p@),
{
    if p.len() > s.len() {
        return false;
    }
    matches_at(s, p, s.len() - p.len())
}

pub fn ends_with_lit(s: &[char], lit: &str) -> (r: bool)
    ensures
        r == ends_with(s@, lit@),
{
    let p = str_chars(lit);
    if p.len() > s.len() {
        return false;
    }
    matches_at(s, p.as_slice(), s.len() - p.len())
}

/// `str::find` with a pattern given as chars.
pub fn find_chars(s: &[char], p: &[char]) -> (r: Option<usize>)
    ensures
        r matches Some(i) ==> match_at(s@, p@, i as int),
        r matches Some(i) ==> find(s@, p@) == Some(i as int),
        r is None ==> find(s@, p@) is None,
{
    if p.len() > s.len() {
        return None;
    }
    let mut i: usize = 0;
    while i <= s.len() - p.len()
        invariant
            p@.len() <= s@.len(),
            i <= s@.len() - p@.len() + 1,
            find(s@, p@) == find_from(s@, p@, i as int),
        decreases s.len() - p.len() + 1 - i,
    {
        if matches_at(s, p, i) {
            return Some(i);
        }
        if i == s.len() - p.len() {
            assert(find_from(s@, p@, i + 1) is None);
            return None;
        }
        i = i + 1;
    }
    None
}

pub fn find_lit(s: &[char], lit: &str) -> (r: Option<usize>)
    ensures
        r matches Some(i) ==> match_at(s@, lit@, i as int),
        r matches Some(i) ==> find(s@, lit@) == Some(i as int),
        r is None ==> find(s@, lit@) is None,
{
    let p = str_chars(lit);
    find_chars(s, p.as_slice())
}

/// `str::rfind` with a pattern given as chars.
pub fn rfind_chars(s: &[char], p: &[char]) -> (r: Option<usize>)
    ensures
        r matches Some(i) ==> match_at(s@, p@, i as int),
        r matches Some(i) ==> rfind(s@, p@) == Some(i as int),
        r is None ==> rfind(s@, p@) is None,
{
    let mut e: usize = s.len();
    while e >= p.len()
        invariant
            e <= s@.len(),
            rfind(s@, p@) == rfind_upto(s@, p@, e as int),
        decreases e,
    {
        if matches_at(s, p, e - p.len()) {
            return Some(e - p.len());
        }
        if e == 0 {
            assert(rfind_upto(s@, p@, -1) is None);
            return None;
        }
        e = e - 1;
    }
    None
}

pub fn rfind_lit(s: &[char], lit: &str) -> (r: Option<usize>)
    ensures
        r matches Some(i) ==> match_at(s@, lit@, i as int),
        r matches Some(i) ==> rfind(s@, lit@) == Some(i as int),
        r is None ==> rfind(s@, lit@) is None,
{
    let p = str_chars(lit);
    rfind_chars(s, p.as_slice())
}

/// Index of the first char that is not white space.
pub fn trim_start_index(s: &[char]) -> (r: usize)
    ensures
        r <= s@.len(),
        trim_start(s@) == s@.subrange(r as int, s@.len() as int),
{
    let mut i: usize = 0;
    assert(s@.subrange(0, s@.len() as int) =~= s@);
    while i < s.len()
        invariant
            i <= s@.len(),
            trim_start(s@) == trim_start(s@.subrange(i as int, s@.len() as int)),
        decreases s.len() - i,
    {
        if !is_ws_char(s[i]) {
            return i;
        }
        assert(s@.subrange(i as int, s@.len() as int).drop_first() =~= s@.subrange(
            i + 1,
            s@.len() as int,
        ));
        i = i + 1;
    }
    assert(s@.subrange(i as int, s@.len() as int) =~= Seq::<char>::empty());
    i
}

/// Index just past the last char that is not white space.
pub fn trim_end_index(s: &[char]) -> (r: usize)
    ensures
        r <= s@.len(),
        trim_end(s@) == s@.subrange(0, r as int),
{
    let mut e: usize = s.len();
    assert(s@.subrange(0, e as int) =~= s@);
    while e > 0
        invariant
            e <= s@.len(),
            trim_end(s@) == trim_end(s@.subrange(0, e as int)),
        decreases e,
    {
        if !is_ws_char(s[e - 1]) {
            return e;
        }
        assert(s@.subrange(0, e as int).drop_last() =~= s@.subrange(0, e - 1));
        e = e - 1;
    }
    e
}

/// `str::trim`.
pub fn trim_chars(s: &[char]) -> (r: Vec<char>)
    ensures
        r@ == trim(s@),
{
    let a = trim_start_index(s);
    let t = copy_range(s, a, s.len());
    let b = trim_end_index(t.as_slice());
    copy_range(t.as_slice(), 0, b)
}

/// `str::trim_start`.
pub fn trim_start_chars(s: &[char]) -> (r: Vec<char>)
    ensures
        r@ == trim_start(s@),
{
    let a = trim_start_index(s);
    copy_range(s, a, s.len())
}

/// `str::trim_end`.
pub fn trim_end_chars(s: &[char]) -> (r: Vec<char>)
    ensures
        r@ == trim_end(s@),
        r@.len() <= s@.len(),
{
    let b = trim_end_index(s);
    copy_range(s, 0, b)
}

/// `str::strip_prefix` with a literal.
pub fn strip_prefix_lit(s: &[char], lit: &str) -> (r: Option<Vec<char>>)
    ensures
        r matches Some(v) ==> strip_prefix(s@, lit@) == Some(v@),
        r is None ==> strip_prefix(s@, lit@) is None,
{
    let p = str_chars(lit);
    if starts_with_chars(s, p.as_slice()) {
        Some(copy_range(s, p.len(), s.len()))
    } else {
        None
    }
}

/// `str::strip_suffix` with a literal.
pub fn strip_suffix_lit(s: &[char], lit: &str) -> (r: Option<Vec<char>>)
    ensures
        r matches Some(v) ==> strip_suffix(s@, lit@) == Some(v@),
        r is None ==> strip_suffix(s@, lit@) is None,
{
    if ends_with_lit(s, lit) {
        let p = str_chars(lit);
        Some(copy_range(s, 0, s.len() - p.len()))
    } else {
        None
    }
}

/// `str::to_ascii_lowercase`.
pub fn lower_chars(s: &[char]) -> (r: Vec<char>)
    ensures
        r@ == lower(s@),
{
    let mut r: Vec<char> = Vec::new();
    let mut k: usize = 0;
    while k < s.len()
        invariant
            k <= s@.len(),
            r@ == lower(s@.subrange(0, k as int)),
        decreases s.len() - k,
    {
        r.push(lower_char_exec(s[k]));
        k = k + 1;
        assert(r@ =~= lower(s@.subrange(0, k as int)));
    }
    assert(s@.subrange(0, k as int) =~= s@);
    r
}

/// `str::replace` with literal pattern and replacement; the pattern is not empty.
pub fn replace_lit(s: &[char], pat: &str, rep: &str) -> (r: Vec<char>)
    requires
        pat@.len() > 0,
    ensures
        r@ == replace_all(s@, pat@, rep@),
{
    let p = str_chars(pat);
    let rv = str_chars(rep);
    let mut out: Vec<char> = Vec::new();
    let mut rest = copy_range(s, 0, s.len());
    assert(rest@ =~= s@);
    loop
        invariant
            p@ == pat@,
            rv@ == rep@,
            p@.len() > 0,
            out@ + replace_all(rest@, p@, rv@) == replace_all(s@, p@, rv@),
        decreases rest@.len(),
    {
        let n = rest.len();
        match find_chars(rest.as_slice(), p.as_slice()) {
            Some(i) => {
                let head = copy_range(rest.as_slice(), 0, i);
                let tail = copy_range(rest.as_slice(), i + p.len(), n);
                assert(rest@.take(i as int) =~= head@);
                assert(rest@.skip(i + p@.len()) =~= tail@);
                let ghost old_out = out@;
                let mut k: usize = 0;
                let mut new_out = out;
                let mut h: usize = 0;
                while h < head.len()
                    invariant
                        h <= head@.len(),
                        new_out@ == old_out + head@.take(h as int),
                    decreases head.len() - h,
                {
                    new_out.push(head[h]);
                    h = h + 1;
                    assert(new_out@ =~= old_out + head@.take(h as int));
                }
                assert(head@.take(h as int) =~= head@);
                while k < rv.len()
                    invariant
                        k <= rv@.len(),
                        new_out@ == old_out + head@ + rv@.take(k as int),
                    decreases rv.len() - k,
                {
                    new_out.push(rv[k]);
                    k = k + 1;
                    assert(new_out@ =~= old_out + head@ + rv@.take(k as int));
                }
                assert(rv@.take(k as int) =~= rv@);
                assert(old_out + (head@ + rv@ + replace_all(tail@, p@, rv@)) =~= new_out@
                    + replace_all(tail@, p@, rv@));
                out = new_out;
                rest = tail;
            },
            None => {
                assert(out@ + rest@ == replace_all(s@, p@, rv@));
                let mut k: usize = 0;
                let ghost old_out = out@;
                while k < rest.len()
                    invariant
                        k <= rest@.len(),
                        out@ == old_out + rest@.take(k as int),
                    decreases rest.len() - k,
                {
                    out.push(rest[k]);
                    k = k + 1;
                    assert(out@ =~= old_out + rest@.take(k as int));
                }
                assert(rest@.take(k as int) =~= rest@);
                return out;
            },
        }
    }
}

/// `str::contains` with a literal.
pub fn contains_lit(s: &[char], lit: &str) -> (r: bool)
    ensures
        r == contains(s@, lit@),
{
    find_lit(s, lit).is_some()
}


// ── Lines ────────────────────────────────────────────

/// Drops one trailing carriage return.
pub open spec fn strip_cr(l: Seq<char>) -> Seq<char> {
    if l.len() > 0 && l.last() == '\r' {
        l.drop_last()
    } else {
        l
    }
}

/// Lines of `s` given the unfinished line `cur`: `\n` ends a line (and a
/// `\r` before it is dropped); a final unterminated line is kept as it is.
pub open spec fn lines_acc(s: Seq<char>, cur: Seq<char>) -> Seq<Seq<char>>
    decreases s.len(),
{
    if s.len() == 0 {
        if cur.len() == 0 {
            Seq::empty()
        } else {
            seq![cur]
        }
    } else if s[0] == '\n' {
        seq![strip_cr(cur)] + lines_acc(s.drop_first(), Seq::empty())
    } else {
        lines_acc(s.drop_first(), cur.push(s[0]))
    }
}

/// `str::lines`.
pub open spec fn lines(s: Seq<char>) -> Seq<Seq<char>> {
    lines_acc(s, Seq::empty())
}

/// Views of a vector of char vectors.
pub open spec fn vv(v: Seq<Vec<char>>) -> Seq<Seq<char>> {
    v.map_values(|l: Vec<char>| l@)
}

/// `lines(s)` as vectors.
pub fn split_lines(s: &[char]) -> (r: Vec<Vec<char>>)
    ensures
        vv(r@) == lines(s@),
{
    let mut out: Vec<Vec<char>> = Vec::new();
    let mut cur: Vec<char> = Vec::new();
    let mut i: usize = 0;
    assert(s@.skip(0) =~= s@);
    while i < s.len()
        invariant
            i <= s@.len(),
            vv(out@) + lines_acc(s@.skip(i as int), cur@) == lines(s@),
        decreases s.len() - i,
    {
        let ghost rest = s@.skip(i as int);
        let ghost old_cur = cur@;
        assert(rest.drop_first() =~= s@.skip(i + 1));
        let c = s[i];
        if c == '\n' {
            let mut line = cur;
            let n = line.len();
            if n > 0 && line[n - 1] == '\r' {
                line.pop();
            }
            assert(line@ == strip_cr(cur@)) by {
                if n > 0 && cur@.last() == '\r' {
                    assert(line@ =~= cur@.drop_last());
                }
            };
            let ghost before = vv(out@);
            out.push(line);
            assert(vv(out@) =~= before + seq![strip_cr(cur@)]);
            cur = Vec::new();
            assert(vv(out@) + lines_acc(s@.skip(i + 1), cur@) =~= before + lines_acc(rest, old_cur));
        } else {
            cur.push(c);
            assert(lines_acc(rest, old_cur) == lines_acc(s@.skip(i + 1), cur@));
        }
        i = i + 1;
    }
    assert(s@.skip(i as int) =~= Seq::<char>::empty());
    if cur.len() > 0 {
        let ghost before = vv(out@);
        out.push(cur);
        assert(vv(out@) =~= before + lines_acc(Seq::<char>::empty(), cur@));
    } else {
        assert(vv(out@) =~= vv(out@) + lines_acc(Seq::<char>::empty(), cur@));
    }
    out
}

/// `slice::join("\n")`.
pub open spec fn join_nl(ls: Seq<Seq<char>>) -> Seq<char>
    decreases ls.len(),
{
    if ls.len() == 0 {
        Seq::empty()
    } else if ls.len() == 1 {
        ls[0]
    } else {
        ls[0] + seq!['\n'] + join_nl(ls.drop_first())
    }
}

/// Joins lines with `\n` and ends a non-empty result with one more `\n`.
pub open spec fn join_lines_terminated(ls: Seq<Seq<char>>) -> Seq<char> {
    let j = join_nl(ls);
    if j.len() == 0 {
        j
    } else {
        j.push('\n')
    }
}

fn append_chars(out: &mut Vec<char>, s: &[char])
    ensures
        final(out)@ == old(out)@ + s@,
{
    let ghost o = out@;
    let mut k: usize = 0;
    while k < s.len()
        invariant
            k <= s@.len(),
            out@ == o + s@.take(k as int),
        decreases s.len() - k,
    {
        out.push(s[k]);
        k = k + 1;
        assert(out@ =~= o + s@.take(k as int));
    }
    assert(s@.take(k as int) =~= s@);
}

/// Joins lines with `\n`, adding a final `\n` to a non-empty result.
pub fn join_lines(ls: &Vec<Vec<char>>) -> (r: Vec<char>)
    ensures
        r@ == join_lines_terminated(vv(ls@)),
{
    let mut out: Vec<char> = Vec::new();
    let ghost all = vv(ls@);
    let mut i: usize = 0;
    while i < ls.len()
        invariant
            all == vv(ls@),
            i <= ls@.len(),
            i > 0 ==> out@ + (if i < ls@.len() { seq!['\n'] + join_nl(all.skip(i as int)) } else { Seq::<char>::empty() }) == join_nl(all),
            i == 0 ==> out@.len() == 0,
        decreases ls.len() - i,
    {
        proof {
            let rest = all.skip(i as int);
            assert(rest.drop_first() =~= all.skip(i + 1));
            assert(rest[0] == ls@[i as int]@);
            if i == 0 {
                assert(all.skip(0) =~= all);
            }
        }
        if i > 0 {
            out.push('\n');
        }
        append_chars(&mut out, ls[i].as_slice());
        i = i + 1;
    }
    if out.len() > 0 {
        out.push('\n');
    }
    proof {
        if ls@.len() == 0 {
            assert(join_nl(all) =~= Seq::<char>::empty());
        }
    }
    out
}


// ── UTF-8 byte positions ─────────────────────────────

/// Length of `c` in UTF-8.
pub open spec fn utf8_len(c: char) -> nat {
    let u = c as u32;
    if u < 0x80 {
        1
    } else if u < 0x800 {
        2
    } else if u < 0x10000 {
        3
    } else {
        4
    }
}

/// Length of `s` in UTF-8 bytes.
pub open spec fn utf8_bytes_len(s: Seq<char>) -> nat
    decreases s.len(),
{
    if s.len() == 0 {
        0
    } else {
        utf8_bytes_len(s.drop_last()) + utf8_len(s.last())
    }
}

/// `str::get(..n)`: the chars that make up exactly the first `n` bytes, when
/// byte `n` falls on a char boundary inside the text.
pub open spec fn byte_prefix(s: Seq<char>, n: nat) -> Option<Seq<char>>
    decreases s.len(),
{
    if utf8_bytes_len(s) == n {
        Some(s)
    } else if s.len() == 0 {
        None
    } else {
        byte_prefix(s.drop_last(), n)
    }
}

fn utf8_len_exec(c: char) -> (r: usize)
    ensures
        r == utf8_len(c),
{
    let u = c as u32;
    if u < 0x80 {
        1
    } else if u < 0x800 {
        2
    } else if u < 0x10000 {
        3
    } else {
        4
    }
}

proof fn lemma_bytes_len_monotone(s: Seq<char>, k: int)
    requires
        0 <= k <= s.len(),
    ensures
        utf8_bytes_len(s.take(k)) <= utf8_bytes_len(s),
    decreases s.len() - k,
{
    if k < s.len() {
        lemma_bytes_len_monotone(s, k + 1);
        assert(s.take(k + 1).drop_last() =~= s.take(k));
    } else {
        assert(s.take(k) =~= s);
    }
}

/// `s.get(..n).unwrap_or(s)`.
pub fn byte_prefix_or_all(s: &[char], n: usize) -> (r: Vec<char>)
    ensures
        r@ == (match byte_prefix(s@, n as nat) {
            Some(p) => p,
            None => s@,
        }),
{
    // byte_prefix scans from the whole text down; the bytes length only grows
    // with the prefix, so the first prefix (from the front) reaching `n`
    // bytes is the one.
    let mut k: usize = 0;
    let mut bytes: usize = 0;
    while k < s.len() && bytes < n
        invariant
            k <= s@.len(),
            bytes == utf8_bytes_len(s@.take(k as int)),
            bytes <= n,
            forall|j: int| 0 <= j < k ==> utf8_bytes_len(#[trigger] s@.take(j)) < n,
        decreases s.len() - k,
    {
        assert(s@.take(k + 1).drop_last() =~= s@.take(k as int));
        let width = utf8_len_exec(s[k]);
        if width > n - bytes {
            // this character crosses the limit: no prefix ends exactly at `n`
            proof {
                lemma_byte_prefix_scan(s@, n as nat, k + 1);
            }
            return copy_range(s, 0, s.len());
        }
        bytes = bytes + width;
        k = k + 1;
    }
    proof {
        lemma_byte_prefix_scan(s@, n as nat, k as int);
    }
    if bytes == n {
        copy_range(s, 0, k)
    } else {
        copy_range(s, 0, s.len())
    }
}

/// Relates the forward scan in `byte_prefix_or_all` to `byte_prefix`.
proof fn lemma_byte_prefix_scan(s: Seq<char>, n: nat, k: int)
    requires
        0 <= k <= s.len(),
        forall|j: int| 0 <= j < k ==> utf8_bytes_len(#[trigger] s.take(j)) < n,
        k < s.len() ==> utf8_bytes_len(s.take(k)) >= n,
    ensures
        utf8_bytes_len(s.take(k)) == n ==> byte_prefix(s, n) == Some(s.take(k)),
        utf8_bytes_len(s.take(k)) != n ==> byte_prefix(s, n) is None,
    decreases s.len(),
{
    lemma_byte_prefix_from_end(s, n, k, s.len() as int);
    assert(s.take(s.len() as int) =~= s);
}

/// `byte_prefix` of `s.take(m)` for `m >= k`, by induction on `m`.
proof fn lemma_byte_prefix_from_end(s: Seq<char>, n: nat, k: int, m: int)
    requires
        0 <= k <= m <= s.len(),
        forall|j: int| 0 <= j < k ==> utf8_bytes_len(#[trigger] s.take(j)) < n,
        k < s.len() ==> utf8_bytes_len(s.take(k)) >= n,
    ensures
        utf8_bytes_len(s.take(k)) == n ==> byte_prefix(s.take(m), n) == Some(s.take(k)),
        utf8_bytes_len(s.take(k)) != n ==> byte_prefix(s.take(m), n) is None,
    decreases m,
{
    let t = s.take(m);
    if m == k {
        if utf8_bytes_len(t) != n {
            if m > 0 {
                assert(t.drop_last() =~= s.take(m - 1));
                lemma_byte_prefix_below(s, n, m - 1);
            }
        }
    } else {
        // m > k, so k < s.len() and bytes(take(k)) >= n; take(m) has more bytes
        assert(t.drop_last() =~= s.take(m - 1));
        lemma_bytes_len_monotone(s.take(m), k);
        assert(s.take(m).take(k) =~= s.take(k));
        if utf8_bytes_len(t) == n {
            // then bytes(take(k)) <= n, so == n; and take(k) ... adding chars adds >= 1 byte
            lemma_bytes_len_strict(s, k, m);
        }
        lemma_byte_prefix_from_end(s, n, k, m - 1);
    }
}

proof fn lemma_bytes_len_strict(s: Seq<char>, k: int, m: int)
    requires
        0 <= k < m <= s.len(),
    ensures
        utf8_bytes_len(s.take(k)) < utf8_bytes_len(s.take(m)),
    decreases m - k,
{
    assert(s.take(m).drop_last() =~= s.take(m - 1));
    if m - 1 > k {
        lemma_bytes_len_strict(s, k, m - 1);
    }
}

/// Below the first prefix that reaches `n` bytes, no prefix has exactly `n`.
proof fn lemma_byte_prefix_below(s: Seq<char>, n: nat, m: int)
    requires
        0 <= m < s.len(),
        forall|j: int| 0 <= j <= m ==> utf8_bytes_len(#[trigger] s.take(j)) < n,
    ensures
        byte_prefix(s.take(m), n) is None,
    decreases m,
{
    let t = s.take(m);
    assert(s.take(m) == t);
    if m > 0 {
        assert(t.drop_last() =~= s.take(m - 1));
        lemma_byte_prefix_below(s, n, m - 1);
    } else {
        assert(t.len() == 0);
    }
}


/// Where `find_from` lands, `p` occurs.
pub proof fn lemma_find_from_bounds(s: Seq<char>, p: Seq<char>, i: int)
    ensures
        find_from(s, p, i) matches Some(k) ==> match_at(s, p, k) && i <= k,
    decreases s.len() + 1 - i,
{
    if !(i < 0 || i + p.len() > s.len()) && !match_at(s, p, i) {
        lemma_find_from_bounds(s, p, i + 1);
    }
}

proof fn lemma_find_from_reaches(s: Seq<char>, p: Seq<char>, j: int, i: int)
    requires
        0 <= j <= i,
        match_at(s, p, i),
    ensures
        find_from(s, p, j) is Some,
    decreases i - j,
{
    if !match_at(s, p, j) {
        lemma_find_from_reaches(s, p, j + 1, i);
    }
}

/// A pattern that occurs somewhere is contained.
pub proof fn lemma_match_at_found(s: Seq<char>, p: Seq<char>, i: int)
    requires
        match_at(s, p, i),
    ensures
        contains(s, p),
{
    lemma_find_from_reaches(s, p, 0, i);
}

/// A pattern whose first char does not occur in `s` is found nowhere in it.
pub proof fn lemma_find_from_absent_first(s: Seq<char>, p: Seq<char>, i: int)
    requires
        p.len() > 0,
        !s.contains(p[0]),
    ensures
        find_from(s, p, i) is None,
    decreases s.len() + 1 - i,
{
    if !(i < 0 || i + p.len() > s.len()) {
        if match_at(s, p, i) {
            assert(s.subrange(i, i + p.len())[0] == s[i]);
            assert(s.contains(s[i]));
        }
        lemma_find_from_absent_first(s, p, i + 1);
    }
}

/// Replacing a pattern whose first char does not occur in `s` leaves `s`
/// as it is.
pub proof fn lemma_replace_all_absent_first(s: Seq<char>, p: Seq<char>, r: Seq<char>)
    requires
        p.len() > 0,
        !s.contains(p[0]),
    ensures
        replace_all(s, p, r) == s,
{
    lemma_find_from_absent_first(s, p, 0);
}

/// `str::split` with a non-empty pattern: the pieces between the
/// occurrences of `p`, found left to right.
pub open spec fn split_on(s: Seq<char>, p: Seq<char>) -> Seq<Seq<char>>
    decreases s.len(),
{
    if p.len() == 0 {
        seq![s]
    } else {
        match find(s, p) {
            Some(i) => {
                proof {
                    lemma_find_from_bounds(s, p, 0);
                }
                seq![s.take(i)] + split_on(s.skip(i + p.len()), p)
            },
            None => seq![s],
        }
    }
}

/// `str::split` with a non-empty literal pattern.
pub fn split_on_lit(s: &[char], lit: &str) -> (r: Vec<Vec<char>>)
    requires
        lit@.len() > 0,
    ensures
        vv(r@) == split_on(s@, lit@),
{
    let p = str_chars(lit);
    let mut out: Vec<Vec<char>> = Vec::new();
    let mut cur = copy_range(s, 0, s.len());
    assert(s@.subrange(0, s@.len() as int) =~= s@);
    loop
        invariant
            p@ == lit@,
            p@.len() > 0,
            split_on(s@, lit@) == vv(out@) + split_on(cur@, lit@),
        decreases cur@.len(),
    {
        match find_chars(cur.as_slice(), p.as_slice()) {
            Some(i) => {
                let n = cur.len();
                assert(i + p@.len() <= n);
                let piece = copy_range(cur.as_slice(), 0, i);
                let rest = copy_range(cur.as_slice(), i + p.len(), n);
                assert(piece@ =~= cur@.take(i as int));
                assert(rest@ =~= cur@.skip(i + p@.len()));
                let ghost before = vv(out@);
                out.push(piece);
                assert(vv(out@) =~= before.push(piece@));
                assert(split_on(cur@, lit@) =~= seq![piece@] + split_on(rest@, lit@));
                assert(split_on(s@, lit@) =~= vv(out@) + split_on(rest@, lit@));
                cur = rest;
            },
            None => {
                let ghost before = vv(out@);
                assert(split_on(cur@, lit@) =~= seq![cur@]);
                out.push(cur);
                assert(vv(out@) =~= before.push(split_on(s@, lit@).last()));
                assert(split_on(s@, lit@) =~= vv(out@));
                return out;
            },
        }
    }
}

} // verus!
