//! The structure of a background prefab's YAML: its game objects,
//! transforms (with their parent, children and order), mesh renderers and
//! background sprite components. Numeric fields are checked to read as
//! floating-point numbers and handed on as text.

use vstd::prelude::*;
use crate::data::assets::atlas_materials::{guid_prefix, guid_prefix_spec};
use crate::data::bg_data::{delimited_value, delimited_value_of};
use crate::data::level_db::opt_seq;
use crate::number::{all_digits, parse_i64, parse_i64_spec};
use crate::text::{
    chars_eq, chars_to_string, copy_range, eq_lit, find, find_lit, first_some, is_ascii_digit,
    is_digit_char, lower, lower_chars,
    lemma_first_some_end, lemma_first_some_step, lines, split_lines, split_on, split_on_lit,
    starts_with, starts_with_lit, str_chars, strings_view, strip_prefix, strip_prefix_lit, trim,
    trim_chars, vv,
};

verus! {

// ── Fields ───────────────────────────────────────────

/// `s` without one leading sign.
pub open spec fn unsigned_part(s: Seq<char>) -> Seq<char> {
    if s.len() > 0 && (s[0] == '+' || s[0] == '-') {
        s.drop_first()
    } else {
        s
    }
}

/// Digits with at most one `.`, with a digit on at least one side.
pub open spec fn mantissa_ok(m: Seq<char>) -> bool {
    match find(m, "."@) {
        Some(d) => all_digits(m.take(d)) && all_digits(m.skip(d + 1)) && (d > 0 || m.len() > d
            + 1),
        None => m.len() > 0 && all_digits(m),
    }
}

/// An exponent: an optional sign and at least one digit.
pub open spec fn exponent_ok(x: Seq<char>) -> bool {
    unsigned_part(x).len() > 0 && all_digits(unsigned_part(x))
}

/// Position of the first `e` or `E`.
pub open spec fn exp_mark(s: Seq<char>) -> Option<int> {
    match find(s, "e"@) {
        Some(i) => match find(s.take(i), "E"@) {
            Some(j) => Some(j),
            None => Some(i),
        },
        None => find(s, "E"@),
    }
}

/// A decimal number: mantissa and optional exponent.
pub open spec fn number_text(s: Seq<char>) -> bool {
    match exp_mark(s) {
        Some(e) => mantissa_ok(s.take(e)) && exponent_ok(s.skip(e + 1)),
        None => mantissa_ok(s),
    }
}

/// The text of a floating-point number as `str::parse` reads it: an
/// optional sign, then `inf`, `infinity`, `nan` (in any case) or a decimal
/// number with an optional exponent.
pub open spec fn float_text(s: Seq<char>) -> bool {
    let body = unsigned_part(s);
    let l = lower(body);
    l == "inf"@ || l == "infinity"@ || l == "nan"@ || number_text(body)
}

fn all_digits_exec(s: &[char]) -> (r: bool)
    ensures
        r == all_digits(s@),
{
    let mut i: usize = 0;
    while i < s.len()
        invariant
            i <= s@.len(),
            forall|k: int| 0 <= k < i ==> is_ascii_digit(#[trigger] s@[k]),
        decreases s.len() - i,
    {
        if !is_digit_char(s[i]) {
            assert(!is_ascii_digit(s@[i as int]));
            return false;
        }
        i = i + 1;
    }
    true
}

fn unsigned_part_exec(s: &[char]) -> (r: Vec<char>)
    ensures
        r@ == unsigned_part(s@),
{
    if s.len() > 0 && (s[0] == '+' || s[0] == '-') {
        let r = copy_range(s, 1, s.len());
        assert(r@ =~= s@.drop_first());
        r
    } else {
        let r = copy_range(s, 0, s.len());
        assert(r@ =~= s@);
        r
    }
}

fn mantissa_ok_exec(m: &[char]) -> (r: bool)
    ensures
        r == mantissa_ok(m@),
{
    match find_lit(m, ".") {
        Some(d) => {
            proof {
                reveal_strlit(".");
            }
            let n = m.len();
            assert(d + 1 <= n);
            let a = copy_range(m, 0, d);
            let b = copy_range(m, d + 1, n);
            assert(a@ =~= m@.take(d as int));
            assert(b@ =~= m@.skip(d + 1));
            all_digits_exec(a.as_slice()) && all_digits_exec(b.as_slice()) && (d > 0 || n > d + 1)
        },
        None => m.len() > 0 && all_digits_exec(m),
    }
}

fn number_text_exec(s: &[char]) -> (r: bool)
    ensures
        r == number_text(s@),
{
    proof {
        reveal_strlit("e");
        reveal_strlit("E");
    }
    let e = match find_lit(s, "e") {
        Some(i) => {
            let t = copy_range(s, 0, i);
            assert(t@ =~= s@.take(i as int));
            match find_lit(t.as_slice(), "E") {
                Some(j) => Some(j),
                None => Some(i),
            }
        },
        None => find_lit(s, "E"),
    };
    match e {
        Some(i) => {
            proof {
                crate::text::lemma_find_from_bounds(s@, "e"@, 0);
                crate::text::lemma_find_from_bounds(s@, "E"@, 0);
                crate::text::lemma_find_from_bounds(s@.take(i as int), "E"@, 0);
            }
            let n = s.len();
            assert(i + 1 <= n);
            let m = copy_range(s, 0, i);
            let x = copy_range(s, i + 1, n);
            assert(m@ =~= s@.take(i as int));
            assert(x@ =~= s@.skip(i + 1));
            let xu = unsigned_part_exec(x.as_slice());
            mantissa_ok_exec(m.as_slice()) && xu.len() > 0 && all_digits_exec(xu.as_slice())
        },
        None => mantissa_ok_exec(s),
    }
}

/// Whether a text reads as a floating-point number.
pub fn is_float_text(s: &[char]) -> (r: bool)
    ensures
        r == float_text(s@),
{
    let body = unsigned_part_exec(s);
    let l = lower_chars(body.as_slice());
    eq_lit(l.as_slice(), "inf") || eq_lit(l.as_slice(), "infinity") || eq_lit(l.as_slice(), "nan")
        || number_text_exec(body.as_slice())
}

/// The value of a line `prefix<value>` (line and value trimmed).
pub open spec fn field_line(l: Seq<char>, prefix: Seq<char>) -> Option<Seq<char>> {
    match strip_prefix(trim(l), prefix) {
        Some(v) => Some(trim(v)),
        None => None,
    }
}

/// The value of the first line of a document that starts with `prefix`.
pub open spec fn field_value_spec(doc: Seq<char>, prefix: Seq<char>) -> Option<Seq<char>> {
    first_some(lines(doc).map_values(|l: Seq<char>| field_line(l, prefix)))
}

pub fn field_value(doc: &[char], prefix: &str) -> (r: Option<Vec<char>>)
    ensures
        match r {
            Some(v) => field_value_spec(doc@, prefix@) == Some(v@),
            None => field_value_spec(doc@, prefix@) is None,
        },
{
    let ls = split_lines(doc);
    let ghost vals = lines(doc@).map_values(|l: Seq<char>| field_line(l, prefix@));
    let mut i: usize = 0;
    assert(vals.skip(0) =~= vals);
    while i < ls.len()
        invariant
            vv(ls@) == lines(doc@),
            vals == lines(doc@).map_values(|l: Seq<char>| field_line(l, prefix@)),
            i <= ls@.len(),
            first_some(vals) == first_some(vals.skip(i as int)),
        decreases ls.len() - i,
    {
        proof {
            lemma_first_some_step(vals, i as int);
            assert(vals[i as int] == field_line(ls@[i as int]@, prefix@));
        }
        let t = trim_chars(ls[i].as_slice());
        match strip_prefix_lit(t.as_slice(), prefix) {
            Some(v) => {
                return Some(trim_chars(v.as_slice()));
            },
            None => {},
        }
        i = i + 1;
    }
    proof {
        lemma_first_some_end(vals);
    }
    None
}

/// `!u!<class> &<file id>`: the class and the trimmed file id of a
/// document header.
pub open spec fn header_spec(header: Seq<char>) -> Option<(int, Seq<char>)> {
    match strip_prefix(trim(header), "!u!"@) {
        Some(rest) => match find(rest, " &"@) {
            Some(i) => match parse_i64_spec(rest.take(i)) {
                Some(c) => if i32::MIN <= c <= i32::MAX {
                    Some((c, trim(rest.skip(i + 2))))
                } else {
                    None
                },
                None => None,
            },
            None => None,
        },
        None => None,
    }
}

pub fn parse_doc_header(header: &[char]) -> (r: Option<(i32, Vec<char>)>)
    ensures
        match r {
            Some((c, id)) => header_spec(header@) == Some((c as int, id@)),
            None => header_spec(header@) is None,
        },
{
    proof {
        reveal_strlit(" &");
    }
    let t = trim_chars(header);
    let rest = match strip_prefix_lit(t.as_slice(), "!u!") {
        Some(r) => r,
        None => {
            return None;
        },
    };
    match find_lit(rest.as_slice(), " &") {
        Some(i) => {
            let n = rest.len();
            assert(i + 2 <= n);
            let class_text = copy_range(rest.as_slice(), 0, i);
            let id_text = copy_range(rest.as_slice(), i + 2, n);
            assert(class_text@ =~= rest@.take(i as int));
            assert(id_text@ =~= rest@.skip(i + 2));
            match parse_i64(class_text.as_slice()) {
                Some(c) => {
                    if -2147483648 <= c && c <= 2147483647 {
                        Some((c as i32, trim_chars(id_text.as_slice())))
                    } else {
                        None
                    }
                },
                None => None,
            }
        },
        None => None,
    }
}

/// Whether a component is enabled: unless its `m_Enabled: ` is `0`.
pub open spec fn is_enabled_spec(doc: Seq<char>) -> bool {
    field_value_spec(doc, "m_Enabled: "@) != Some("0"@)
}

pub fn is_enabled(doc: &[char]) -> (r: bool)
    ensures
        r == is_enabled_spec(doc@),
{
    match field_value(doc, "m_Enabled: ") {
        Some(v) => !eq_lit(v.as_slice(), "0"),
        None => true,
    }
}

/// The file id in a `{fileID: ...}` reference.
pub open spec fn extract_file_id_spec(value: Seq<char>) -> Option<Seq<char>> {
    delimited_value(value, "fileID: "@)
}

/// The GUID in a `{..., guid: ...}` reference.
pub open spec fn extract_guid_spec(value: Seq<char>) -> Option<Seq<char>> {
    delimited_value(value, "guid: "@)
}

/// The children a transform lists under `m_Children:`, up to `m_Father:`
/// or the first other non-empty line.
pub open spec fn children_from(ls: Seq<Seq<char>>, i: int, in_children: bool) -> Seq<Seq<char>>
    decreases ls.len() - i,
{
    if i < 0 || i >= ls.len() {
        Seq::empty()
    } else {
        let t = trim(ls[i]);
        if starts_with(t, "m_Children:"@) {
            children_from(ls, i + 1, true)
        } else if !in_children {
            children_from(ls, i + 1, false)
        } else {
            match strip_prefix(t, "- "@) {
                Some(rest) => opt_seq(extract_file_id_spec(rest)) + children_from(ls, i + 1, true),
                None => if starts_with(t, "m_Father:"@) || t.len() > 0 {
                    Seq::empty()
                } else {
                    children_from(ls, i + 1, true)
                },
            }
        }
    }
}

pub open spec fn children_spec(doc: Seq<char>) -> Seq<Seq<char>> {
    children_from(lines(doc), 0, false)
}

pub fn parse_children(doc: &[char]) -> (r: Vec<String>)
    ensures
        strings_view(r@) == children_spec(doc@),
{
    let ls = split_lines(doc);
    let ghost gl = lines(doc@);
    let mut out: Vec<String> = Vec::new();
    let mut in_children = false;
    let mut i: usize = 0;
    while i < ls.len()
        invariant
            vv(ls@) == gl,
            gl == lines(doc@),
            i <= ls@.len(),
            children_spec(doc@) == strings_view(out@) + children_from(gl, i as int, in_children),
        decreases ls.len() - i,
    {
        let t = trim_chars(ls[i].as_slice());
        assert(t@ == trim(gl[i as int]));
        if starts_with_lit(t.as_slice(), "m_Children:") {
            in_children = true;
        } else if in_children {
            match strip_prefix_lit(t.as_slice(), "- ") {
                Some(rest) => {
                    let ghost before = strings_view(out@);
                    match delimited_value_of(rest.as_slice(), "fileID: ") {
                        Some(c) => {
                            out.push(chars_to_string(c.as_slice()));
                            assert(strings_view(out@) =~= before + seq![c@]);
                        },
                        None => {
                            assert(strings_view(out@) =~= before + Seq::<Seq<char>>::empty());
                        },
                    }
                    assert(children_spec(doc@) =~= strings_view(out@) + children_from(
                        gl,
                        i + 1,
                        true,
                    ));
                },
                None => {
                    if starts_with_lit(t.as_slice(), "m_Father:") || t.len() > 0 {
                        assert(children_from(gl, i as int, true) =~= Seq::<Seq<char>>::empty());
                        assert(strings_view(out@) =~= strings_view(out@) + Seq::<Seq<char>>::empty());
                        return out;
                    }
                },
            }
        }
        i = i + 1;
    }
    assert(children_from(gl, i as int, in_children) =~= Seq::<Seq<char>>::empty());
    assert(strings_view(out@) =~= strings_view(out@) + Seq::<Seq<char>>::empty());
    out
}


// ── Vectors ──────────────────────────────────────────

pub open spec fn strip_open_braces(s: Seq<char>) -> Seq<char>
    decreases s.len(),
{
    if s.len() > 0 && s[0] == '{' {
        strip_open_braces(s.drop_first())
    } else {
        s
    }
}

pub open spec fn strip_close_braces(s: Seq<char>) -> Seq<char>
    decreases s.len(),
{
    if s.len() > 0 && s.last() == '}' {
        strip_close_braces(s.drop_last())
    } else {
        s
    }
}

/// The axis a component names: 0, 1, 2 for `x`, `y`, `z`.
pub open spec fn axis_index(a: Seq<char>) -> int {
    if a == "x"@ {
        0
    } else if a == "y"@ {
        1
    } else if a == "z"@ {
        2
    } else {
        -1
    }
}

/// One `axis: value` component of a `{x: .., y: .., z: ..}` vector: the
/// scan fails on a component without `:` or with a value that is not a
/// number; other axes are skipped.
pub open spec fn vec3_step(
    st: Option<(Seq<Seq<char>>, Seq<bool>)>,
    part: Seq<char>,
) -> Option<(Seq<Seq<char>>, Seq<bool>)> {
    match st {
        None => None,
        Some((out, seen)) => {
            let p = trim(part);
            match find(p, ":"@) {
                None => None,
                Some(i) => {
                    let idx = axis_index(trim(p.take(i)));
                    let raw = trim(p.skip(i + 1));
                    if idx < 0 {
                        st
                    } else if !float_text(raw) {
                        None
                    } else {
                        Some((out.update(idx, raw), seen.update(idx, true)))
                    }
                },
            }
        },
    }
}

pub open spec fn vec3_scan(parts: Seq<Seq<char>>, n: nat) -> Option<(Seq<Seq<char>>, Seq<bool>)>
    decreases n,
{
    if n == 0 {
        Some((seq![Seq::empty(), Seq::empty(), Seq::empty()], seq![false, false, false]))
    } else {
        vec3_step(vec3_scan(parts, (n - 1) as nat), parts[n - 1])
    }
}

/// The texts of the three components of a vector, when all three are
/// given as numbers.
pub open spec fn vec3_spec(value: Seq<char>) -> Option<Seq<Seq<char>>> {
    let parts = split_on(strip_close_braces(strip_open_braces(trim(value))), ","@);
    match vec3_scan(parts, parts.len()) {
        Some((out, seen)) => if seen[0] && seen[1] && seen[2] {
            Some(out)
        } else {
            None
        },
        None => None,
    }
}

fn strip_braces(s: &[char]) -> (r: Vec<char>)
    ensures
        r@ == strip_close_braces(strip_open_braces(s@)),
{
    let mut i: usize = 0;
    assert(s@.skip(0) =~= s@);
    while i < s.len() && s[i] == '{'
        invariant
            i <= s@.len(),
            strip_open_braces(s@) == strip_open_braces(s@.skip(i as int)),
        decreases s.len() - i,
    {
        assert(s@.skip(i as int).drop_first() =~= s@.skip(i + 1));
        i = i + 1;
    }
    let ghost a = s@.skip(i as int);
    let mut j: usize = s.len();
    assert(a.take(a.len() as int) =~= a);
    while j > i && s[j - 1] == '}'
        invariant
            i <= j <= s@.len(),
            a == s@.skip(i as int),
            strip_open_braces(s@) == a,
            strip_close_braces(a) == strip_close_braces(a.take(j - i)),
        decreases j,
    {
        assert(a.take(j - i).drop_last() =~= a.take(j - i - 1));
        j = j - 1;
    }
    assert(a.take(j - i) =~= s@.subrange(i as int, j as int));
    copy_range(s, i, j)
}

/// A failed vector scan stays failed.
proof fn lemma_vec3_scan_stays_failed(parts: Seq<Seq<char>>, n: nat, m: nat)
    requires
        n <= m,
        vec3_scan(parts, n) is None,
    ensures
        vec3_scan(parts, m) is None,
    decreases m - n,
{
    if n < m {
        lemma_vec3_scan_stays_failed(parts, n, (m - 1) as nat);
    }
}

/// The component texts of a `{x: .., y: .., z: ..}` vector.
pub fn parse_vec3(value: &[char]) -> (r: Option<Vec<String>>)
    ensures
        match r {
            Some(v) => vec3_spec(value@) == Some(strings_view(v@)),
            None => vec3_spec(value@) is None,
        },
{
    proof {
        reveal_strlit(":");
        reveal_strlit(",");
    }
    let t = trim_chars(value);
    let body = strip_braces(t.as_slice());
    let parts = split_on_lit(body.as_slice(), ",");
    let ghost pv = vv(parts@);
    let mut out: Vec<String> = Vec::new();
    out.push(String::new());
    out.push(String::new());
    out.push(String::new());
    let mut seen: Vec<bool> = vec![false, false, false];
    proof {
        assert(strings_view(out@) =~= seq![Seq::<char>::empty(), Seq::empty(), Seq::empty()]);
    }
    let mut i: usize = 0;
    while i < parts.len()
        invariant
            pv == vv(parts@),
            pv == split_on(body@, ","@),
            body@ == strip_close_braces(strip_open_braces(trim(value@))),
            i <= pv.len(),
            out@.len() == 3,
            seen@.len() == 3,
            vec3_scan(pv, i as nat) == Some((strings_view(out@), seen@)),
        decreases parts.len() - i,
    {
        proof {
            reveal_strlit(":");
        }
        let p = trim_chars(parts[i].as_slice());
        assert(p@ == trim(pv[i as int]));
        match find_lit(p.as_slice(), ":") {
            None => {
                proof {
                    lemma_vec3_scan_stays_failed(pv, (i + 1) as nat, pv.len());
                }
                return None;
            },
            Some(k) => {
                let n = p.len();
                assert(k + 1 <= n);
                let axis_text = copy_range(p.as_slice(), 0, k);
                let raw_text = copy_range(p.as_slice(), k + 1, n);
                assert(axis_text@ =~= p@.take(k as int));
                assert(raw_text@ =~= p@.skip(k + 1));
                let axis = trim_chars(axis_text.as_slice());
                let raw = trim_chars(raw_text.as_slice());
                let idx: usize = if eq_lit(axis.as_slice(), "x") {
                    0
                } else if eq_lit(axis.as_slice(), "y") {
                    1
                } else if eq_lit(axis.as_slice(), "z") {
                    2
                } else {
                    3
                };
                if idx < 3 {
                    if !is_float_text(raw.as_slice()) {
                        proof {
                            lemma_vec3_scan_stays_failed(pv, (i + 1) as nat, pv.len());
                        }
                        return None;
                    }
                    let ghost before = strings_view(out@);
                    out.set(idx, chars_to_string(raw.as_slice()));
                    seen.set(idx, true);
                    assert(strings_view(out@) =~= before.update(idx as int, raw@));
                }
            },
        }
        i = i + 1;
    }
    if seen[0] && seen[1] && seen[2] {
        Some(out)
    } else {
        None
    }
}

// ── Documents ────────────────────────────────────────

/// The script GUID of background sprite components.
pub open spec fn bg_sprite_script_guid() -> Seq<char> {
    "b011dfa16a4475b746a1372ea41fdf05"@
}

/// The YAML documents of a prefab text: what follows each `--- `.
pub open spec fn docs_of(raw: Seq<char>) -> Seq<Seq<char>> {
    split_on(raw, "--- "@).skip(1)
}

/// The class and file id of a document, from its first line.
pub open spec fn doc_header(doc: Seq<char>) -> Option<(int, Seq<char>)> {
    if lines(doc).len() > 0 {
        header_spec(lines(doc)[0])
    } else {
        None
    }
}

pub open spec fn or_else(o: Option<Seq<char>>, d: Seq<char>) -> Seq<char> {
    match o {
        Some(v) => v,
        None => d,
    }
}

pub open spec fn file_id_field(doc: Seq<char>, key: Seq<char>) -> Option<Seq<char>> {
    match field_value_spec(doc, key) {
        Some(v) => extract_file_id_spec(v),
        None => None,
    }
}

/// A game object: (file id, name, tag, active).
pub open spec fn game_object_spec(doc: Seq<char>, id: Seq<char>) -> (Seq<char>, Seq<char>, Seq<char>, bool) {
    (
        id,
        or_else(field_value_spec(doc, "m_Name: "@), id),
        or_else(field_value_spec(doc, "m_TagString: "@), Seq::empty()),
        field_value_spec(doc, "m_IsActive: "@) != Some("0"@),
    )
}

/// A transform: (file id, game object, position, scale, parent, children,
/// root order).
pub open spec fn transform_spec(doc: Seq<char>, id: Seq<char>) -> Option<
    (Seq<char>, Seq<char>, Option<Seq<Seq<char>>>, Option<Seq<Seq<char>>>, Option<Seq<char>>, Seq<Seq<char>>, int),
> {
    match file_id_field(doc, "m_GameObject: "@) {
        Some(go) => Some(
            (
                id,
                go,
                match field_value_spec(doc, "m_LocalPosition: "@) {
                    Some(v) => vec3_spec(v),
                    None => None,
                },
                match field_value_spec(doc, "m_LocalScale: "@) {
                    Some(v) => vec3_spec(v),
                    None => None,
                },
                match file_id_field(doc, "m_Father: "@) {
                    Some(f) => if f != "0"@ {
                        Some(f)
                    } else {
                        None
                    },
                    None => None,
                },
                children_spec(doc),
                match field_value_spec(doc, "m_RootOrder: "@) {
                    Some(v) => match parse_i64_spec(v) {
                        Some(o) => if i32::MIN <= o <= i32::MAX {
                            o
                        } else {
                            0
                        },
                        None => 0,
                    },
                    None => 0,
                },
            ),
        ),
        None => None,
    }
}

/// The material GUID of a renderer line `- {..., guid: ...}`.
pub open spec fn material_line(l: Seq<char>) -> Option<Seq<char>> {
    match strip_prefix(trim(l), "- "@) {
        Some(rest) => extract_guid_spec(rest),
        None => None,
    }
}

/// An enabled mesh renderer: (game object, first eight bytes of its first
/// material's GUID).
pub open spec fn renderer_spec(doc: Seq<char>) -> Option<(Seq<char>, Seq<char>)> {
    if !is_enabled_spec(doc) {
        None
    } else {
        match file_id_field(doc, "m_GameObject: "@) {
            Some(go) => match first_some(lines(doc).map_values(|l: Seq<char>| material_line(l))) {
                Some(g) => Some((go, guid_prefix_spec(g))),
                None => None,
            },
            None => None,
        }
    }
}

/// The keys of the numeric fields of a background sprite component, in
/// the order they are kept.
pub open spec fn sprite_keys() -> Seq<Seq<char>> {
    seq![
        "m_spriteWidth: "@,
        "m_spriteHeight: "@,
        "m_UVx: "@,
        "m_UVy: "@,
        "m_width: "@,
        "m_height: "@,
        "m_atlasGridSubdivisions: "@,
    ]
}

/// A field that holds a number.
pub open spec fn number_field(doc: Seq<char>, key: Seq<char>) -> Option<Seq<char>> {
    match field_value_spec(doc, key) {
        Some(v) => if float_text(v) {
            Some(v)
        } else {
            None
        },
        None => None,
    }
}

/// The numbers of `sprite_keys` in a document, where they are numbers.
pub open spec fn sprite_numbers(doc: Seq<char>) -> Seq<Option<Seq<char>>> {
    sprite_keys().map_values(|k: Seq<char>| number_field(doc, k))
}

pub open spec fn unwrap_all(s: Seq<Option<Seq<char>>>) -> Seq<Seq<char>> {
    s.map_values(|o: Option<Seq<char>>| o->0)
}

/// An enabled background sprite component with all its numbers: (game
/// object, the numbers of `sprite_keys`, border when it is a number).
pub open spec fn sprite_spec(doc: Seq<char>) -> Option<(Seq<char>, Seq<Seq<char>>, Option<Seq<char>>)> {
    let script = match field_value_spec(doc, "m_Script: "@) {
        Some(v) => extract_guid_spec(v),
        None => None,
    };
    let go = file_id_field(doc, "m_GameObject: "@);
    let nums = sprite_numbers(doc);
    if is_enabled_spec(doc) && script == Some(bg_sprite_script_guid()) && go is Some
        && number_field(doc, "m_textureWidth: "@) is Some && number_field(doc, "m_textureHeight: "@) is Some
        && (forall|k: int| 0 <= k < 7 ==> #[trigger] nums[k] is Some) {
        Some((go->0, unwrap_all(nums), number_field(doc, "m_border: "@)))
    } else {
        None
    }
}


// ── The parsed prefab ────────────────────────────────

/// A game object of the prefab.
pub struct BgGameObject {
    pub file_id: String,
    pub name: String,
    pub tag: String,
    pub active: bool,
}

/// A transform: position and scale are the texts of their components
/// (`None` where the field is missing or not a full vector of numbers).
pub struct BgTransform {
    pub file_id: String,
    pub game_object_id: String,
    pub local_pos: Option<Vec<String>>,
    pub local_scale: Option<Vec<String>>,
    pub parent_id: Option<String>,
    pub children: Vec<String>,
    pub root_order: i32,
}

/// An enabled mesh renderer and the first eight bytes of its material GUID.
pub struct BgRenderer {
    pub game_object_id: String,
    pub material_prefix: String,
}

/// A background sprite component: the numbers of `sprite_keys`, in that
/// order, and the border when it is given as a number.
pub struct BgSpriteFields {
    pub game_object_id: String,
    pub numbers: Vec<String>,
    pub border: Option<String>,
}

/// A background prefab. In each list a later entry for the same id
/// replaces an earlier one.
pub struct BgPrefab {
    pub root_transform_id: String,
    pub game_objects: Vec<BgGameObject>,
    pub transforms: Vec<BgTransform>,
    pub renderers: Vec<BgRenderer>,
    pub sprites: Vec<BgSpriteFields>,
}

pub open spec fn opt_strings(o: Option<Vec<String>>) -> Option<Seq<Seq<char>>> {
    match o {
        Some(v) => Some(strings_view(v@)),
        None => None,
    }
}

pub open spec fn opt_string(o: Option<String>) -> Option<Seq<char>> {
    match o {
        Some(v) => Some(v@),
        None => None,
    }
}

pub open spec fn go_view(g: BgGameObject) -> (Seq<char>, Seq<char>, Seq<char>, bool) {
    (g.file_id@, g.name@, g.tag@, g.active)
}

pub open spec fn transform_view(t: BgTransform) -> (
    Seq<char>,
    Seq<char>,
    Option<Seq<Seq<char>>>,
    Option<Seq<Seq<char>>>,
    Option<Seq<char>>,
    Seq<Seq<char>>,
    int,
) {
    (
        t.file_id@,
        t.game_object_id@,
        opt_strings(t.local_pos),
        opt_strings(t.local_scale),
        opt_string(t.parent_id),
        strings_view(t.children@),
        t.root_order as int,
    )
}

pub open spec fn renderer_view(r: BgRenderer) -> (Seq<char>, Seq<char>) {
    (r.game_object_id@, r.material_prefix@)
}

pub open spec fn sprite_view(s: BgSpriteFields) -> (Seq<char>, Seq<Seq<char>>, Option<Seq<char>>) {
    (s.game_object_id@, strings_view(s.numbers@), opt_string(s.border))
}

fn opt_copy(o: &Option<Vec<char>>) -> (r: Option<String>)
    ensures
        opt_string(r) == (match o {
            Some(v) => Some(v@),
            None => None,
        }),
{
    match o {
        Some(v) => Some(chars_to_string(v.as_slice())),
        None => None,
    }
}

fn file_id_field_of(doc: &[char], key: &str) -> (r: Option<Vec<char>>)
    ensures
        match r {
            Some(v) => file_id_field(doc@, key@) == Some(v@),
            None => file_id_field(doc@, key@) is None,
        },
{
    match field_value(doc, key) {
        Some(v) => delimited_value_of(v.as_slice(), "fileID: "),
        None => None,
    }
}

fn parse_game_object_doc(doc: &[char], id: &[char]) -> (r: BgGameObject)
    ensures
        go_view(r) == game_object_spec(doc@, id@),
{
    let name = match field_value(doc, "m_Name: ") {
        Some(n) => n,
        None => copy_range(id, 0, id.len()),
    };
    assert(id@.subrange(0, id@.len() as int) =~= id@);
    let tag = match field_value(doc, "m_TagString: ") {
        Some(t) => t,
        None => Vec::new(),
    };
    let active = match field_value(doc, "m_IsActive: ") {
        Some(a) => !eq_lit(a.as_slice(), "0"),
        None => true,
    };
    BgGameObject {
        file_id: chars_to_string(id),
        name: chars_to_string(name.as_slice()),
        tag: chars_to_string(tag.as_slice()),
        active,
    }
}

fn vec3_field(doc: &[char], key: &str) -> (r: Option<Vec<String>>)
    ensures
        opt_strings(r) == (match field_value_spec(doc@, key@) {
            Some(v) => vec3_spec(v),
            None => None,
        }),
{
    match field_value(doc, key) {
        Some(v) => parse_vec3(v.as_slice()),
        None => None,
    }
}

fn parse_transform_doc(doc: &[char], id: &[char]) -> (r: Option<BgTransform>)
    ensures
        match r {
            Some(t) => transform_spec(doc@, id@) == Some(transform_view(t)),
            None => transform_spec(doc@, id@) is None,
        },
{
    let go = match file_id_field_of(doc, "m_GameObject: ") {
        Some(g) => g,
        None => {
            return None;
        },
    };
    let local_pos = vec3_field(doc, "m_LocalPosition: ");
    let local_scale = vec3_field(doc, "m_LocalScale: ");
    let parent_id = match file_id_field_of(doc, "m_Father: ") {
        Some(f) => if !eq_lit(f.as_slice(), "0") {
            Some(chars_to_string(f.as_slice()))
        } else {
            None
        },
        None => None,
    };
    let root_order: i32 = match field_value(doc, "m_RootOrder: ") {
        Some(v) => match parse_i64(v.as_slice()) {
            Some(o) => if -2147483648 <= o && o <= 2147483647 {
                o as i32
            } else {
                0
            },
            None => 0,
        },
        None => 0,
    };
    Some(
        BgTransform {
            file_id: chars_to_string(id),
            game_object_id: chars_to_string(go.as_slice()),
            local_pos,
            local_scale,
            parent_id,
            children: parse_children(doc),
            root_order,
        },
    )
}

fn parse_renderer_doc(doc: &[char]) -> (r: Option<BgRenderer>)
    ensures
        match r {
            Some(x) => renderer_spec(doc@) == Some(renderer_view(x)),
            None => renderer_spec(doc@) is None,
        },
{
    if !is_enabled(doc) {
        return None;
    }
    let go = match file_id_field_of(doc, "m_GameObject: ") {
        Some(g) => g,
        None => {
            return None;
        },
    };
    let ls = split_lines(doc);
    let ghost vals = lines(doc@).map_values(|l: Seq<char>| material_line(l));
    let mut i: usize = 0;
    assert(vals.skip(0) =~= vals);
    while i < ls.len()
        invariant
            vv(ls@) == lines(doc@),
            vals == lines(doc@).map_values(|l: Seq<char>| material_line(l)),
            i <= ls@.len(),
            first_some(vals) == first_some(vals.skip(i as int)),
            is_enabled_spec(doc@),
            file_id_field(doc@, "m_GameObject: "@) == Some(go@),
        decreases ls.len() - i,
    {
        proof {
            lemma_first_some_step(vals, i as int);
            assert(vals[i as int] == material_line(ls@[i as int]@));
        }
        let t = trim_chars(ls[i].as_slice());
        match strip_prefix_lit(t.as_slice(), "- ") {
            Some(rest) => match delimited_value_of(rest.as_slice(), "guid: ") {
                Some(g) => {
                    let prefix = guid_prefix(g.as_slice());
                    return Some(
                        BgRenderer {
                            game_object_id: chars_to_string(go.as_slice()),
                            material_prefix: chars_to_string(prefix.as_slice()),
                        },
                    );
                },
                None => {},
            },
            None => {},
        }
        i = i + 1;
    }
    proof {
        lemma_first_some_end(vals);
    }
    None
}

fn number_field_of(doc: &[char], key: &str) -> (r: Option<Vec<char>>)
    ensures
        match r {
            Some(v) => number_field(doc@, key@) == Some(v@),
            None => number_field(doc@, key@) is None,
        },
{
    match field_value(doc, key) {
        Some(v) => if is_float_text(v.as_slice()) {
            Some(v)
        } else {
            None
        },
        None => None,
    }
}

fn parse_sprite_doc(doc: &[char]) -> (r: Option<BgSpriteFields>)
    ensures
        match r {
            Some(x) => sprite_spec(doc@) == Some(sprite_view(x)),
            None => sprite_spec(doc@) is None,
        },
{
    let ghost nums = sprite_numbers(doc@);
    if !is_enabled(doc) {
        return None;
    }
    let script = match field_value(doc, "m_Script: ") {
        Some(v) => delimited_value_of(v.as_slice(), "guid: "),
        None => None,
    };
    match script {
        Some(g) => if !eq_lit(g.as_slice(), "b011dfa16a4475b746a1372ea41fdf05") {
            return None;
        },
        None => {
            return None;
        },
    }
    let go = match file_id_field_of(doc, "m_GameObject: ") {
        Some(g) => g,
        None => {
            return None;
        },
    };
    if number_field_of(doc, "m_textureWidth: ").is_none() || number_field_of(
        doc,
        "m_textureHeight: ",
    ).is_none() {
        return None;
    }
    let keys: [&str; 7] = [
        "m_spriteWidth: ",
        "m_spriteHeight: ",
        "m_UVx: ",
        "m_UVy: ",
        "m_width: ",
        "m_height: ",
        "m_atlasGridSubdivisions: ",
    ];
    assert(forall|k: int| 0 <= k < 7 ==> (#[trigger] keys@[k])@ == sprite_keys()[k]);
    let mut numbers: Vec<String> = Vec::new();
    let mut k: usize = 0;
    while k < 7
        invariant
            k <= 7,
            is_enabled_spec(doc@),
            (match field_value_spec(doc@, "m_Script: "@) {
                Some(v) => extract_guid_spec(v),
                None => None,
            }) == Some(bg_sprite_script_guid()),
            file_id_field(doc@, "m_GameObject: "@) == Some(go@),
            number_field(doc@, "m_textureWidth: "@) is Some,
            number_field(doc@, "m_textureHeight: "@) is Some,
            nums == sprite_numbers(doc@),
            forall|m: int| 0 <= m < 7 ==> (#[trigger] keys@[m])@ == sprite_keys()[m],
            numbers@.len() == k,
            forall|m: int| 0 <= m < k ==> #[trigger] nums[m] == Some(numbers@[m]@),
        decreases 7 - k,
    {
        match number_field_of(doc, keys[k]) {
            Some(v) => {
                numbers.push(chars_to_string(v.as_slice()));
            },
            None => {
                assert(nums[k as int] is None);
                return None;
            },
        }
        k = k + 1;
    }
    let border = match number_field_of(doc, "m_border: ") {
        Some(b) => Some(chars_to_string(b.as_slice())),
        None => None,
    };
    let r = BgSpriteFields { game_object_id: chars_to_string(go.as_slice()), numbers, border };
    assert(strings_view(r.numbers@) =~= unwrap_all(nums));
    assert(forall|m: int| 0 <= m < 7 ==> #[trigger] nums[m] is Some);
    Some(r)
}

/// State of the document scan: (root game object, game objects,
/// transforms, renderers, sprites).
pub struct PrefabScan {
    pub root_go: Option<Seq<char>>,
    pub game_objects: Seq<(Seq<char>, Seq<char>, Seq<char>, bool)>,
    pub transforms: Seq<
        (Seq<char>, Seq<char>, Option<Seq<Seq<char>>>, Option<Seq<Seq<char>>>, Option<Seq<char>>, Seq<Seq<char>>, int),
    >,
    pub renderers: Seq<(Seq<char>, Seq<char>)>,
    pub sprites: Seq<(Seq<char>, Seq<Seq<char>>, Option<Seq<char>>)>,
}

/// One document: a prefab root (class 1001), game object (1), transform
/// (4), mesh renderer (23) or sprite component (114).
pub open spec fn scan_step(st: PrefabScan, doc: Seq<char>) -> PrefabScan {
    match doc_header(doc) {
        Some((c, id)) => if c == 1001 {
            PrefabScan { root_go: file_id_field(doc, "m_RootGameObject: "@), ..st }
        } else if c == 1 {
            PrefabScan { game_objects: st.game_objects.push(game_object_spec(doc, id)), ..st }
        } else if c == 4 {
            PrefabScan { transforms: st.transforms + opt_seq(transform_spec(doc, id)), ..st }
        } else if c == 23 {
            PrefabScan { renderers: st.renderers + opt_seq(renderer_spec(doc)), ..st }
        } else if c == 114 {
            PrefabScan { sprites: st.sprites + opt_seq(sprite_spec(doc)), ..st }
        } else {
            st
        },
        None => st,
    }
}

pub open spec fn prefab_scan(docs: Seq<Seq<char>>, n: nat) -> PrefabScan
    decreases n,
{
    if n == 0 {
        PrefabScan {
            root_go: None,
            game_objects: Seq::empty(),
            transforms: Seq::empty(),
            renderers: Seq::empty(),
            sprites: Seq::empty(),
        }
    } else {
        scan_step(prefab_scan(docs, (n - 1) as nat), docs[n - 1])
    }
}

/// A transform entry no later entry for the same id replaces.
pub open spec fn effective(ids: Seq<Seq<char>>, i: int) -> bool {
    forall|j: int| i < j < ids.len() ==> ids[j] != ids[i]
}

/// The first effective transform of game object `go`, from `i` on.
pub open spec fn first_of_go(
    ts: Seq<(Seq<char>, Seq<char>, Option<Seq<Seq<char>>>, Option<Seq<Seq<char>>>, Option<Seq<char>>, Seq<Seq<char>>, int)>,
    go: Seq<char>,
    i: int,
) -> Option<int>
    decreases ts.len() - i,
{
    if i < 0 || i >= ts.len() {
        None
    } else if effective(ts.map_values(|t: (Seq<char>, Seq<char>, Option<Seq<Seq<char>>>, Option<Seq<Seq<char>>>, Option<Seq<char>>, Seq<Seq<char>>, int)| t.0), i) && ts[i].1 == go {
        Some(i)
    } else {
        first_of_go(ts, go, i + 1)
    }
}

/// The first effective transform without a parent, from `i` on.
pub open spec fn first_parentless(
    ts: Seq<(Seq<char>, Seq<char>, Option<Seq<Seq<char>>>, Option<Seq<Seq<char>>>, Option<Seq<char>>, Seq<Seq<char>>, int)>,
    i: int,
) -> Option<int>
    decreases ts.len() - i,
{
    if i < 0 || i >= ts.len() {
        None
    } else if effective(ts.map_values(|t: (Seq<char>, Seq<char>, Option<Seq<Seq<char>>>, Option<Seq<Seq<char>>>, Option<Seq<char>>, Seq<Seq<char>>, int)| t.0), i) && ts[i].4 is None {
        Some(i)
    } else {
        first_parentless(ts, i + 1)
    }
}

/// The root transform: that of the prefab's root game object, else the
/// first without a parent.
pub open spec fn root_transform_spec(st: PrefabScan) -> Option<Seq<char>> {
    let by_go = match st.root_go {
        Some(g) => first_of_go(st.transforms, g, 0),
        None => None,
    };
    match by_go {
        Some(i) => Some(st.transforms[i].0),
        None => match first_parentless(st.transforms, 0) {
            Some(i) => Some(st.transforms[i].0),
            None => None,
        },
    }
}


pub open spec fn transform_ids(ts: Seq<(Seq<char>, Seq<char>, Option<Seq<Seq<char>>>, Option<Seq<Seq<char>>>, Option<Seq<char>>, Seq<Seq<char>>, int)>) -> Seq<Seq<char>> {
    ts.map_values(|t: (Seq<char>, Seq<char>, Option<Seq<Seq<char>>>, Option<Seq<Seq<char>>>, Option<Seq<char>>, Seq<Seq<char>>, int)| t.0)
}

pub open spec fn scan_view(
    root_go: Option<Seq<char>>,
    gos: Seq<BgGameObject>,
    ts: Seq<BgTransform>,
    rs: Seq<BgRenderer>,
    ss: Seq<BgSpriteFields>,
) -> PrefabScan {
    PrefabScan {
        root_go,
        game_objects: gos.map_values(|g: BgGameObject| go_view(g)),
        transforms: ts.map_values(|t: BgTransform| transform_view(t)),
        renderers: rs.map_values(|r: BgRenderer| renderer_view(r)),
        sprites: ss.map_values(|x: BgSpriteFields| sprite_view(x)),
    }
}

pub open spec fn opt_chars(o: Option<Vec<char>>) -> Option<Seq<char>> {
    match o {
        Some(v) => Some(v@),
        None => None,
    }
}

fn is_effective(ts: &Vec<BgTransform>, i: usize) -> (r: bool)
    requires
        i < ts@.len(),
    ensures
        r == effective(transform_ids(ts@.map_values(|t: BgTransform| transform_view(t))), i as int),
{
    let ghost ids = transform_ids(ts@.map_values(|t: BgTransform| transform_view(t)));
    let me = str_chars(ts[i].file_id.as_str());
    let n = ts.len();
    let mut j: usize = i + 1;
    while j < ts.len()
        invariant
            i < j <= ts@.len(),
            ids == transform_ids(ts@.map_values(|t: BgTransform| transform_view(t))),
            me@ == ids[i as int],
            forall|m: int| i < m < j ==> ids[m] != ids[i as int],
        decreases ts.len() - j,
    {
        let other = str_chars(ts[j].file_id.as_str());
        assert(other@ == ids[j as int]);
        if chars_eq(other.as_slice(), me.as_slice()) {
            return false;
        }
        j = j + 1;
    }
    true
}

fn find_root_transform(root_go: &Option<Vec<char>>, ts: &Vec<BgTransform>) -> (r: Option<String>)
    ensures
        match r {
            Some(id) => root_transform_spec(
                PrefabScan {
                    root_go: opt_chars(*root_go),
                    transforms: ts@.map_values(|t: BgTransform| transform_view(t)),
                    game_objects: Seq::empty(),
                    renderers: Seq::empty(),
                    sprites: Seq::empty(),
                },
            ) == Some(id@),
            None => root_transform_spec(
                PrefabScan {
                    root_go: opt_chars(*root_go),
                    transforms: ts@.map_values(|t: BgTransform| transform_view(t)),
                    game_objects: Seq::empty(),
                    renderers: Seq::empty(),
                    sprites: Seq::empty(),
                },
            ) is None,
        },
{
    let ghost tv = ts@.map_values(|t: BgTransform| transform_view(t));
    match root_go {
        Some(g) => {
            let mut i: usize = 0;
            while i < ts.len()
                invariant
                    i <= ts@.len(),
                    tv == ts@.map_values(|t: BgTransform| transform_view(t)),
                    opt_chars(*root_go) == Some(g@),
                    first_of_go(tv, g@, 0) == first_of_go(tv, g@, i as int),
                decreases ts.len() - i,
            {
                let go = str_chars(ts[i].game_object_id.as_str());
                assert(tv[i as int] == transform_view(ts@[i as int]));
                if is_effective(ts, i) && chars_eq(go.as_slice(), g.as_slice()) {
                    return Some(string_copy(&ts[i].file_id));
                }
                i = i + 1;
            }
        },
        None => {},
    }
    let mut i: usize = 0;
    while i < ts.len()
        invariant
            i <= ts@.len(),
            tv == ts@.map_values(|t: BgTransform| transform_view(t)),
            first_parentless(tv, 0) == first_parentless(tv, i as int),
            root_go matches Some(g) ==> first_of_go(tv, g@, 0) is None,
        decreases ts.len() - i,
    {
        assert(tv[i as int] == transform_view(ts@[i as int]));
        if is_effective(ts, i) && ts[i].parent_id.is_none() {
            return Some(string_copy(&ts[i].file_id));
        }
        i = i + 1;
    }
    None
}

fn string_copy(s: &String) -> (r: String)
    ensures
        r@ == s@,
{
    let c = str_chars(s.as_str());
    chars_to_string(c.as_slice())
}

/// Parses a background prefab; `None` when it has no root transform.
pub fn parse_prefab(raw: &str) -> (r: Option<BgPrefab>)
    ensures
        match r {
            Some(p) => {
                let st = prefab_scan(docs_of(raw@), docs_of(raw@).len());
                &&& root_transform_spec(st) == Some(p.root_transform_id@)
                &&& st.game_objects == p.game_objects@.map_values(|g: BgGameObject| go_view(g))
                &&& st.transforms == p.transforms@.map_values(|t: BgTransform| transform_view(t))
                &&& st.renderers == p.renderers@.map_values(|x: BgRenderer| renderer_view(x))
                &&& st.sprites == p.sprites@.map_values(|x: BgSpriteFields| sprite_view(x))
            },
            None => root_transform_spec(prefab_scan(docs_of(raw@), docs_of(raw@).len())) is None,
        },
{
    proof {
        reveal_strlit("--- ");
    }
    let t = str_chars(raw);
    let parts = split_on_lit(t.as_slice(), "--- ");
    let ghost docs = docs_of(raw@);
    let mut root_go: Option<Vec<char>> = None;
    let mut gos: Vec<BgGameObject> = Vec::new();
    let mut ts: Vec<BgTransform> = Vec::new();
    let mut rs: Vec<BgRenderer> = Vec::new();
    let mut ss: Vec<BgSpriteFields> = Vec::new();
    let mut i: usize = 1;
    proof {
        assert(gos@.map_values(|g: BgGameObject| go_view(g)) =~= Seq::empty());
        assert(ts@.map_values(|t: BgTransform| transform_view(t)) =~= Seq::empty());
        assert(rs@.map_values(|x: BgRenderer| renderer_view(x)) =~= Seq::empty());
        assert(ss@.map_values(|x: BgSpriteFields| sprite_view(x)) =~= Seq::empty());
    }
    while i < parts.len()
        invariant
            vv(parts@) == split_on(raw@, "--- "@),
            docs == docs_of(raw@),
            1 <= i,
            parts@.len() > 0 ==> i <= parts@.len(),
            prefab_scan(docs, (i - 1) as nat) == scan_view(
                opt_chars(root_go),
                gos@,
                ts@,
                rs@,
                ss@,
            ),
        decreases parts.len() - i,
    {
        let doc = parts[i].as_slice();
        assert(docs[i - 1] == parts@[i as int]@);
        let ghost before = scan_view(
            opt_chars(root_go),
            gos@,
            ts@,
            rs@,
            ss@,
        );
        let ls = split_lines(doc);
        if ls.len() > 0 {
            assert(vv(ls@)[0] == ls@[0]@);
            match parse_doc_header(ls[0].as_slice()) {
                Some((c, id)) => {
                    if c == 1001 {
                        root_go = file_id_field_of(doc, "m_RootGameObject: ");
                    } else if c == 1 {
                        let g = parse_game_object_doc(doc, id.as_slice());
                        gos.push(g);
                        assert(gos@.map_values(|g: BgGameObject| go_view(g)) =~= before.game_objects.push(go_view(g)));
                    } else if c == 4 {
                        match parse_transform_doc(doc, id.as_slice()) {
                            Some(x) => {
                                ts.push(x);
                                assert(ts@.map_values(|t: BgTransform| transform_view(t)) =~= before.transforms + seq![transform_view(x)]);
                            },
                            None => {
                                assert(before.transforms =~= before.transforms + Seq::empty());
                            },
                        }
                    } else if c == 23 {
                        match parse_renderer_doc(doc) {
                            Some(x) => {
                                rs.push(x);
                                assert(rs@.map_values(|x: BgRenderer| renderer_view(x)) =~= before.renderers + seq![renderer_view(x)]);
                            },
                            None => {
                                assert(before.renderers =~= before.renderers + Seq::empty());
                            },
                        }
                    } else if c == 114 {
                        match parse_sprite_doc(doc) {
                            Some(x) => {
                                ss.push(x);
                                assert(ss@.map_values(|x: BgSpriteFields| sprite_view(x)) =~= before.sprites + seq![sprite_view(x)]);
                            },
                            None => {
                                assert(before.sprites =~= before.sprites + Seq::empty());
                            },
                        }
                    }
                },
                None => {},
            }
        }
        i = i + 1;
    }
    let ghost st = prefab_scan(docs, docs.len());
    assert(parts@.len() > 0 ==> docs.len() == parts@.len() - 1);
    proof {
        if parts@.len() == 0 {
            assert(docs.len() == 0);
        }
    }
    match find_root_transform(&root_go, &ts) {
        Some(id) => Some(
            BgPrefab {
                root_transform_id: id,
                game_objects: gos,
                transforms: ts,
                renderers: rs,
                sprites: ss,
            },
        ),
        None => None,
    }
}

} // verus!
