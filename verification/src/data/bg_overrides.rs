//! Position overrides of a background object, read from the indented text
//! of its prefab override data. The values stay text that reads as a
//! floating-point number.

use vstd::prelude::*;
use crate::data::bg_prefab::{float_text, is_float_text};
use crate::text::{
    chars_to_string, copy_range, eq_lit, find, find_lit, lemma_find_from_bounds, lines,
    split_lines, starts_with, starts_with_lit, trim, trim_chars, vv,
};

verus! {

/// What a position override applies to: the group a `GameObject` line
/// opened at depth one, or the sprite one opened at depth two.
#[derive(Debug, Clone, Copy, PartialEq, Eq, Structural)]
pub enum OverrideTarget {
    Group,
    Sprite,
}

/// One `Float <axis> = <value>` line: its target's kind and name, the axis
/// (0 for `x`, 1 for `y`, 2 for `z`, none for another name) and the value.
/// A line with another axis still creates the target's entry.
pub struct BgOverrideValue {
    pub target: OverrideTarget,
    pub name: String,
    pub axis: Option<usize>,
    pub value: String,
}

/// The override lines of a background object, in order; a later value
/// for the same target, name and axis replaces an earlier one.
pub struct BgOverrides {
    pub values: Vec<BgOverrideValue>,
}

pub open spec fn value_view(v: BgOverrideValue) -> (OverrideTarget, Seq<char>, Option<int>, Seq<char>) {
    (
        v.target,
        v.name@,
        match v.axis {
            Some(a) => Some(a as int),
            None => None,
        },
        v.value@,
    )
}

pub open spec fn overrides_view(o: BgOverrides) -> Seq<(OverrideTarget, Seq<char>, Option<int>, Seq<char>)> {
    o.values@.map_values(|v: BgOverrideValue| value_view(v))
}

/// A line without its trailing carriage returns.
pub open spec fn strip_trailing_cr(l: Seq<char>) -> Seq<char>
    decreases l.len(),
{
    if l.len() > 0 && l.last() == '\r' {
        strip_trailing_cr(l.drop_last())
    } else {
        l
    }
}

/// The number of tabs a line starts with.
pub open spec fn leading_tabs(l: Seq<char>) -> nat
    decreases l.len(),
{
    if l.len() > 0 && l[0] == '\t' {
        1 + leading_tabs(l.drop_first())
    } else {
        0
    }
}

/// The axis an override names.
pub open spec fn axis_of(a: Seq<char>) -> Option<int> {
    if a == "x"@ {
        Some(0)
    } else if a == "y"@ {
        Some(1)
    } else if a == "z"@ {
        Some(2)
    } else {
        None
    }
}

/// The trimmed axis and value of a line `Float <axis> = <value>`.
pub open spec fn float_line(content: Seq<char>) -> Option<(Seq<char>, Seq<char>)> {
    if starts_with(content, "Float "@) {
        let rest = content.skip(6);
        match find(rest, "="@) {
            Some(k) => Some((trim(rest.take(k)), trim(rest.skip(k + 1)))),
            None => None,
        }
    } else {
        None
    }
}

/// Scan state: the current group and sprite, what a transform's values
/// apply to, and the values read so far.
pub struct OverrideState {
    pub group: Seq<char>,
    pub sprite: Seq<char>,
    pub target: Option<OverrideTarget>,
    pub values: Seq<(OverrideTarget, Seq<char>, Option<int>, Seq<char>)>,
}

pub open spec fn override_step(st: OverrideState, line: Seq<char>) -> OverrideState {
    let stripped = strip_trailing_cr(line);
    let depth = leading_tabs(stripped);
    let content = trim(stripped);
    if content.len() == 0 {
        st
    } else if depth == 1 && starts_with(content, "GameObject "@) {
        OverrideState { group: trim(content.skip(11)), sprite: Seq::empty(), target: None, ..st }
    } else if depth == 2 && starts_with(content, "GameObject "@) {
        OverrideState { sprite: trim(content.skip(11)), target: None, ..st }
    } else if depth == 2 && content == "Component UnityEngine.Transform"@ {
        OverrideState { target: Some(OverrideTarget::Group), ..st }
    } else if depth == 3 && content == "Component UnityEngine.Transform"@ {
        OverrideState { target: Some(OverrideTarget::Sprite), ..st }
    } else {
        match float_line(content) {
            Some((axis, value)) => if float_text(value) {
                match st.target {
                    Some(t) => {
                        let name = if t == OverrideTarget::Group {
                            st.group
                        } else {
                            st.sprite
                        };
                        if name.len() > 0 {
                            OverrideState { values: st.values.push((t, name, axis_of(axis), value)), ..st }
                        } else {
                            st
                        }
                    },
                    None => st,
                }
            } else {
                st
            },
            None => st,
        }
    }
}

pub open spec fn override_scan(ls: Seq<Seq<char>>) -> OverrideState
    decreases ls.len(),
{
    if ls.len() == 0 {
        OverrideState { group: Seq::empty(), sprite: Seq::empty(), target: None, values: Seq::empty() }
    } else {
        override_step(override_scan(ls.drop_last()), ls.last())
    }
}

/// What each override value holds: a named target, an axis among `x`,
/// `y` and `z` when it has one, and a value that reads as a number.
pub open spec fn override_value_ok(v: (OverrideTarget, Seq<char>, Option<int>, Seq<char>)) -> bool {
    &&& v.1.len() > 0
    &&& float_text(v.3)
    &&& v.2 matches Some(a) ==> 0 <= a <= 2
}

/// Every value an override text gives names its target and reads as a
/// number, so its floating-point value always exists.
pub proof fn lemma_override_values_read_as_numbers(ls: Seq<Seq<char>>)
    ensures
        forall|i: int|
            0 <= i < override_scan(ls).values.len() ==> override_value_ok(
                #[trigger] override_scan(ls).values[i],
            ),
    decreases ls.len(),
{
    if ls.len() > 0 {
        lemma_override_values_read_as_numbers(ls.drop_last());
    }
}

fn strip_trailing_cr_exec(l: &[char]) -> (r: Vec<char>)
    ensures
        r@ == strip_trailing_cr(l@),
{
    let mut n: usize = l.len();
    assert(l@.take(n as int) =~= l@);
    while n > 0 && l[n - 1] == '\r'
        invariant
            n <= l@.len(),
            strip_trailing_cr(l@) == strip_trailing_cr(l@.take(n as int)),
        decreases n,
    {
        assert(l@.take(n as int).drop_last() =~= l@.take(n - 1));
        n = n - 1;
    }
    assert(l@.take(n as int) =~= l@.subrange(0, n as int));
    copy_range(l, 0, n)
}

fn leading_tabs_exec(l: &[char]) -> (r: usize)
    ensures
        r == leading_tabs(l@),
{
    let mut i: usize = 0;
    assert(l@.skip(0) =~= l@);
    while i < l.len() && l[i] == '\t'
        invariant
            i <= l@.len(),
            leading_tabs(l@) == i + leading_tabs(l@.skip(i as int)),
        decreases l.len() - i,
    {
        assert(l@.skip(i as int).drop_first() =~= l@.skip(i + 1));
        i = i + 1;
    }
    i
}

fn axis_of_exec(a: &[char]) -> (r: Option<usize>)
    ensures
        match r {
            Some(k) => axis_of(a@) == Some(k as int),
            None => axis_of(a@) is None,
        },
{
    if eq_lit(a, "x") {
        Some(0)
    } else if eq_lit(a, "y") {
        Some(1)
    } else if eq_lit(a, "z") {
        Some(2)
    } else {
        None
    }
}

fn float_line_exec(content: &[char]) -> (r: Option<(Vec<char>, Vec<char>)>)
    ensures
        match r {
            Some((a, v)) => float_line(content@) == Some((a@, v@)),
            None => float_line(content@) is None,
        },
{
    if !starts_with_lit(content, "Float ") {
        return None;
    }
    proof {
        reveal_strlit("Float ");
    }
    let n = content.len();
    let rest = copy_range(content, 6, n);
    assert(rest@ =~= content@.skip(6));
    match find_lit(rest.as_slice(), "=") {
        Some(k) => {
            proof {
                lemma_find_from_bounds(rest@, "="@, 0);
                reveal_strlit("=");
            }
            let m = rest.len();
            let a = copy_range(rest.as_slice(), 0, k);
            let v = copy_range(rest.as_slice(), k + 1, m);
            assert(a@ =~= rest@.take(k as int));
            assert(v@ =~= rest@.skip(k + 1));
            Some((trim_chars(a.as_slice()), trim_chars(v.as_slice())))
        },
        None => None,
    }
}

/// Parses the position overrides of a background object: `GameObject`
/// lines at depth one and two open a group and a sprite, a transform
/// component at depth two and three directs the following `Float` lines to
/// the group or the sprite, and each `Float <axis> = <value>` line whose
/// value reads as a number gives a value of a named target.
pub fn parse_bg_overrides(raw: &str) -> (r: BgOverrides)
    ensures
        overrides_view(r) == override_scan(lines(raw@)).values,
{
    let chars = crate::text::str_chars(raw);
    let ls = split_lines(chars.as_slice());
    let ghost lv = vv(ls@);
    let mut group: Vec<char> = Vec::new();
    let mut sprite: Vec<char> = Vec::new();
    let mut target: Option<OverrideTarget> = None;
    let mut values: Vec<BgOverrideValue> = Vec::new();
    let mut i: usize = 0;
    while i < ls.len()
        invariant
            lv == vv(ls@),
            lv == lines(raw@),
            i <= lv.len(),
            ({
                let st = override_scan(lv.take(i as int));
                &&& st.group == group@
                &&& st.sprite == sprite@
                &&& st.target == target
                &&& st.values == values@.map_values(|v: BgOverrideValue| value_view(v))
            }),
        decreases ls.len() - i,
    {
        let line = ls[i].as_slice();
        assert(line@ == lv[i as int]);
        assert(lv.take(i + 1).drop_last() =~= lv.take(i as int));
        assert(lv.take(i + 1).last() == lv[i as int]);
        let ghost before = values@.map_values(|v: BgOverrideValue| value_view(v));
        let stripped = strip_trailing_cr_exec(line);
        let depth = leading_tabs_exec(stripped.as_slice());
        let content = trim_chars(stripped.as_slice());
        proof {
            reveal_strlit("GameObject ");
        }
        if content.len() == 0 {
        } else if depth == 1 && starts_with_lit(content.as_slice(), "GameObject ") {
            let rest = copy_range(content.as_slice(), 11, content.len());
            assert(rest@ =~= content@.skip(11));
            group = trim_chars(rest.as_slice());
            sprite = Vec::new();
            target = None;
        } else if depth == 2 && starts_with_lit(content.as_slice(), "GameObject ") {
            let rest = copy_range(content.as_slice(), 11, content.len());
            assert(rest@ =~= content@.skip(11));
            sprite = trim_chars(rest.as_slice());
            target = None;
        } else if depth == 2 && eq_lit(content.as_slice(), "Component UnityEngine.Transform") {
            target = Some(OverrideTarget::Group);
        } else if depth == 3 && eq_lit(content.as_slice(), "Component UnityEngine.Transform") {
            target = Some(OverrideTarget::Sprite);
        } else {
            match float_line_exec(content.as_slice()) {
                Some((axis, value)) => {
                    if is_float_text(value.as_slice()) {
                        match target {
                            Some(t) => {
                                let name = match t {
                                    OverrideTarget::Group => &group,
                                    OverrideTarget::Sprite => &sprite,
                                };
                                if name.len() > 0 {
                                    let v = BgOverrideValue {
                                        target: t,
                                        name: chars_to_string(name.as_slice()),
                                        axis: axis_of_exec(axis.as_slice()),
                                        value: chars_to_string(value.as_slice()),
                                    };
                                    values.push(v);
                                    assert(values@.map_values(|v: BgOverrideValue| value_view(v))
                                        =~= before.push(value_view(v)));
                                }
                            },
                            None => {},
                        }
                    }
                },
                None => {},
            }
        }
        i = i + 1;
    }
    assert(lv.take(i as int) =~= lv);
    BgOverrides { values }
}

} // verus!
