//! The goal area's animation override: a `String bp_goalAnimation = ...`
//! line inside a prefab override text.

use vstd::prelude::*;
use crate::text::{
    chars_to_string, copy_range, first_some, is_ws, join_lines, join_lines_terminated, join_nl,
    lemma_first_some_end, lemma_first_some_step, lines, lines_acc, lower, lower_chars,
    starts_with, starts_with_lit, str_chars, strip_cr, strip_prefix, strip_prefix_lit,
    split_lines, trim, trim_chars, trim_end, trim_start, vv, chars_eq,
};

verus! {

pub const GOAL_ANIMATION_OVERRIDE_NAME: &'static str = "bp_goalAnimation";

/// Goal animation a level asks for.
#[derive(Debug, Clone, Copy, PartialEq, Eq)]
pub enum GoalAnimationState {
    Idle,
    Vanishing,
}

/// Leading byte-order marks removed (`trim_start_matches('\u{feff}')`).
pub open spec fn trim_bom(s: Seq<char>) -> Seq<char>
    decreases s.len(),
{
    if s.len() > 0 && s[0] == '\u{feff}' {
        trim_bom(s.drop_first())
    } else {
        s
    }
}

/// A line as the override scanner reads it.
pub open spec fn line_key(l: Seq<char>) -> Seq<char> {
    trim(trim_bom(l))
}

/// The value of an override line `String bp_goalAnimation = <value>`.
pub open spec fn goal_value(l: Seq<char>) -> Option<Seq<char>> {
    match strip_prefix(line_key(l), "String bp_goalAnimation = "@) {
        Some(v) => Some(trim(v)),
        None => None,
    }
}

pub open spec fn goal_values(ls: Seq<Seq<char>>) -> Seq<Option<Seq<char>>> {
    ls.map_values(|l: Seq<char>| goal_value(l))
}

/// The override value of a text: that of its first override line.
pub open spec fn override_value_spec(text: Seq<char>) -> Option<Seq<char>> {
    first_some(goal_values(lines(text)))
}

/// `Vanishing` (in any ASCII case) selects the vanishing animation.
pub open spec fn from_value_spec(v: Seq<char>) -> GoalAnimationState {
    if lower(v) == lower("Vanishing"@) {
        GoalAnimationState::Vanishing
    } else {
        GoalAnimationState::Idle
    }
}

pub open spec fn parse_state_spec(raw: Option<Seq<char>>) -> GoalAnimationState {
    match raw {
        Some(t) => match override_value_spec(t) {
            Some(v) => from_value_spec(v),
            None => GoalAnimationState::Idle,
        },
        None => GoalAnimationState::Idle,
    }
}

/// Number of leading tabs.
pub open spec fn indent_len(l: Seq<char>) -> nat
    decreases l.len(),
{
    if l.len() > 0 && l[0] == '\t' {
        1 + indent_len(l.drop_first())
    } else {
        0
    }
}

pub open spec fn tabs(n: nat) -> Seq<char> {
    Seq::new(n, |i: int| '\t')
}

/// The override line written for the vanishing animation.
pub open spec fn vanishing_line(indent: nat) -> Seq<char> {
    tabs(indent) + "String bp_goalAnimation = Vanishing"@
}

/// Lines with every override line replaced (vanishing, at its indent) or
/// dropped (idle).
pub open spec fn rewrite_lines(ls: Seq<Seq<char>>, state: GoalAnimationState) -> Seq<Seq<char>>
    decreases ls.len(),
{
    if ls.len() == 0 {
        Seq::empty()
    } else {
        let l = ls[0];
        let head = if goal_value(l) is Some {
            match state {
                GoalAnimationState::Vanishing => seq![vanishing_line(indent_len(l))],
                GoalAnimationState::Idle => Seq::<Seq<char>>::empty(),
            }
        } else {
            seq![l]
        };
        head + rewrite_lines(ls.drop_first(), state)
    }
}

pub open spec fn has_override(ls: Seq<Seq<char>>) -> bool {
    exists|i: int| 0 <= i < ls.len() && (#[trigger] goal_value(ls[i])) is Some
}

/// The lines `set_goal_animation_state` writes.
pub open spec fn set_lines(ls: Seq<Seq<char>>, state: GoalAnimationState) -> Seq<Seq<char>> {
    rewrite_lines(ls, state) + if !has_override(ls) && state == GoalAnimationState::Vanishing {
        seq![vanishing_line(0)]
    } else {
        Seq::<Seq<char>>::empty()
    }
}

pub open spec fn set_state_spec(text: Seq<char>, state: GoalAnimationState) -> Seq<char> {
    join_lines_terminated(set_lines(lines(text), state))
}

impl GoalAnimationState {
    /// Display label of the state.
    pub fn label(self) -> (r: &'static str)
        ensures
            r == (match self {
                GoalAnimationState::Idle => "Idle",
                GoalAnimationState::Vanishing => "Vanishing",
            }),
    {
        match self {
            GoalAnimationState::Idle => "Idle",
            GoalAnimationState::Vanishing => "Vanishing",
        }
    }

    /// The override value written for the state (none for idle).
    fn override_value(self) -> (r: Option<&'static str>)
        ensures
            r == (match self {
                GoalAnimationState::Idle => None::<&'static str>,
                GoalAnimationState::Vanishing => Some("Vanishing"),
            }),
    {
        match self {
            GoalAnimationState::Idle => None,
            GoalAnimationState::Vanishing => Some("Vanishing"),
        }
    }

    fn from_override_value(value: &[char]) -> (r: Self)
        ensures
            r == from_value_spec(value@),
    {
        let a = lower_chars(value);
        let v = str_chars("Vanishing");
        let b = lower_chars(v.as_slice());
        if chars_eq(a.as_slice(), b.as_slice()) {
            GoalAnimationState::Vanishing
        } else {
            GoalAnimationState::Idle
        }
    }
}

fn trim_bom_chars(s: &[char]) -> (r: Vec<char>)
    ensures
        r@ == trim_bom(s@),
{
    let mut i: usize = 0;
    assert(s@.skip(0) =~= s@);
    while i < s.len() && s[i] == '\u{feff}'
        invariant
            i <= s@.len(),
            trim_bom(s@) == trim_bom(s@.skip(i as int)),
        decreases s.len() - i,
    {
        assert(s@.skip(i as int).drop_first() =~= s@.skip(i + 1));
        i = i + 1;
    }
    let r = copy_range(s, i, s.len());
    assert(r@ =~= s@.skip(i as int));
    r
}

fn goal_value_of(line: &[char]) -> (r: Option<Vec<char>>)
    ensures
        r matches Some(v) ==> goal_value(line@) == Some(v@),
        r is None ==> goal_value(line@) is None,
{
    let a = trim_bom_chars(line);
    let key = trim_chars(a.as_slice());
    match strip_prefix_lit(key.as_slice(), "String bp_goalAnimation = ") {
        Some(v) => Some(trim_chars(v.as_slice())),
        None => None,
    }
}

fn goal_animation_override_value(raw_text: &str) -> (r: Option<Vec<char>>)
    ensures
        r matches Some(v) ==> override_value_spec(raw_text@) == Some(v@),
        r is None ==> override_value_spec(raw_text@) is None,
{
    let text = str_chars(raw_text);
    let ls = split_lines(text.as_slice());
    let ghost vals = goal_values(lines(raw_text@));
    let mut i: usize = 0;
    assert(vals.skip(0) =~= vals);
    while i < ls.len()
        invariant
            vv(ls@) == lines(raw_text@),
            vals == goal_values(lines(raw_text@)),
            i <= ls@.len(),
            first_some(vals) == first_some(vals.skip(i as int)),
        decreases ls.len() - i,
    {
        proof {
            lemma_first_some_step(vals, i as int);
            assert(vals[i as int] == goal_value(ls@[i as int]@));
        }
        let v = goal_value_of(ls[i].as_slice());
        if v.is_some() {
            return v;
        }
        i = i + 1;
    }
    proof {
        lemma_first_some_end(vals);
    }
    None
}

/// The state an override text asks for: `Vanishing` when its first
/// `String bp_goalAnimation = ` line says so (in any ASCII case), otherwise
/// `Idle`.
pub fn parse_goal_animation_state(raw_text: Option<&str>) -> (r: GoalAnimationState)
    ensures
        r == parse_state_spec(
            match raw_text {
                Some(t) => Some(t@),
                None => None,
            },
        ),
{
    match raw_text {
        Some(t) => match goal_animation_override_value(t) {
            Some(v) => GoalAnimationState::from_override_value(v.as_slice()),
            None => GoalAnimationState::Idle,
        },
        None => GoalAnimationState::Idle,
    }
}

fn vanishing_line_chars(indent: usize) -> (r: Vec<char>)
    ensures
        r@ == vanishing_line(indent as nat),
{
    let mut out: Vec<char> = Vec::new();
    let mut k: usize = 0;
    while k < indent
        invariant
            k <= indent,
            out@ == tabs(k as nat),
        decreases indent - k,
    {
        out.push('\t');
        k = k + 1;
        assert(out@ =~= tabs(k as nat));
    }
    let tail = str_chars("String bp_goalAnimation = Vanishing");
    let mut j: usize = 0;
    while j < tail.len()
        invariant
            j <= tail@.len(),
            out@ == tabs(indent as nat) + tail@.take(j as int),
        decreases tail.len() - j,
    {
        out.push(tail[j]);
        j = j + 1;
        assert(out@ =~= tabs(indent as nat) + tail@.take(j as int));
    }
    assert(tail@.take(j as int) =~= tail@);
    out
}

fn indent_of(l: &[char]) -> (r: usize)
    ensures
        r == indent_len(l@),
{
    let mut i: usize = 0;
    assert(l@.skip(0) =~= l@);
    while i < l.len() && l[i] == '\t'
        invariant
            i <= l@.len(),
            indent_len(l@) == i + indent_len(l@.skip(i as int)),
        decreases l.len() - i,
    {
        assert(l@.skip(i as int).drop_first() =~= l@.skip(i + 1));
        i = i + 1;
    }
    i
}

/// Rewrites the override text so that it asks for `state`: every override
/// line is replaced by the canonical one at its indentation (vanishing) or
/// removed (idle); a vanishing state with no override line gets one appended.
pub fn set_goal_animation_state(raw_text: &mut String, state: GoalAnimationState)
    ensures
        final(raw_text)@ == set_state_spec(old(raw_text)@, state),
        parse_state_spec(Some(final(raw_text)@)) == state,
        set_lines(lines(old(raw_text)@), state) != seq![Seq::<char>::empty()] ==> plain_lines(
            lines(final(raw_text)@),
        ) == plain_lines(lines(old(raw_text)@)).map_values(|l: Seq<char>| strip_cr(l)),
        (forall|k: int|
            0 <= k < lines(old(raw_text)@).len() && goal_value(#[trigger] lines(old(raw_text)@)[k])
                is None ==> strip_cr(lines(old(raw_text)@)[k]) == lines(old(raw_text)@)[k])
            ==> set_state_spec(final(raw_text)@, state) == final(raw_text)@,
{
    let text = str_chars(raw_text.as_str());
    let ls = split_lines(text.as_slice());
    let ghost all = vv(ls@);
    let mut result: Vec<Vec<char>> = Vec::new();
    let mut replaced = false;
    let mut i: usize = 0;
    assert(all.skip(0) =~= all);
    while i < ls.len()
        invariant
            all == vv(ls@),
            all == lines(old(raw_text)@),
            i <= ls@.len(),
            vv(result@) + rewrite_lines(all.skip(i as int), state) == rewrite_lines(all, state),
            replaced == has_override(all.take(i as int)),
        decreases ls.len() - i,
    {
        proof {
            assert(all.skip(i as int).drop_first() =~= all.skip(i + 1));
            assert(all.skip(i as int)[0] == ls@[i as int]@);
        }
        let line = &ls[i];
        let ghost before = vv(result@);
        let v = goal_value_of(line.as_slice());
        if v.is_some() {
            replaced = true;
            match state {
                GoalAnimationState::Vanishing => {
                    let indent = indent_of(line.as_slice());
                    result.push(vanishing_line_chars(indent));
                    assert(vv(result@) =~= before + seq![vanishing_line(indent_len(all[i as int]))]);
                },
                GoalAnimationState::Idle => {},
            }
        } else {
            let copied = copy_range(line.as_slice(), 0, line.len());
            assert(copied@ =~= line@);
            result.push(copied);
            assert(vv(result@) =~= before + seq![all[i as int]]);
        }
        proof {
            assert(all.take(i + 1) =~= all.take(i as int).push(all[i as int]));
            if has_override(all.take(i + 1)) && !has_override(all.take(i as int)) {
                let k = choose|k: int| 0 <= k < all.take(i + 1).len() && (#[trigger] goal_value(all.take(i + 1)[k])) is Some;
                assert(k == i);
            }
            if has_override(all.take(i as int)) {
                let k = choose|k: int| 0 <= k < all.take(i as int).len() && (#[trigger] goal_value(all.take(i as int)[k])) is Some;
                assert(all.take(i + 1)[k] == all.take(i as int)[k]);
            }
            if goal_value(all[i as int]) is Some {
                assert(all.take(i + 1)[i as int] == all[i as int]);
            }
        }
        i = i + 1;
    }
    assert(all.skip(i as int) =~= Seq::<Seq<char>>::empty());
    assert(all.take(i as int) =~= all);
    if !replaced {
        match state {
            GoalAnimationState::Vanishing => {
                let ghost before = vv(result@);
                result.push(vanishing_line_chars(0));
                assert(vv(result@) =~= before + seq![vanishing_line(0)]);
            },
            GoalAnimationState::Idle => {},
        }
    }
    assert(vv(result@) =~= set_lines(all, state));
    let joined = join_lines(&result);
    *raw_text = chars_to_string(joined.as_slice());
    proof {
        lemma_set_then_parse(old(raw_text)@, state);
        if set_lines(lines(old(raw_text)@), state) != seq![Seq::<char>::empty()] {
            lemma_set_keeps_other_lines(old(raw_text)@, state);
        }
        if forall|k: int|
            0 <= k < lines(old(raw_text)@).len() && goal_value(#[trigger] lines(old(raw_text)@)[k])
                is None ==> strip_cr(lines(old(raw_text)@)[k]) == lines(old(raw_text)@)[k] {
            lemma_set_twice_is_set_once(old(raw_text)@, state);
        }
    }
}

// ── Round trip ───────────────────────────────────────

pub open spec fn no_newline(l: Seq<char>) -> bool {
    forall|k: int| 0 <= k < l.len() ==> l[k] != '\n'
}

pub open spec fn all_no_newline(ls: Seq<Seq<char>>) -> bool {
    forall|k: int| 0 <= k < ls.len() ==> no_newline(#[trigger] ls[k])
}

proof fn lemma_lines_acc_concat(x: Seq<char>, y: Seq<char>, cur: Seq<char>)
    requires
        no_newline(x),
    ensures
        lines_acc(x + y, cur) == lines_acc(y, cur + x),
    decreases x.len(),
{
    if x.len() == 0 {
        assert(x + y =~= y);
        assert(cur + x =~= cur);
    } else {
        assert((x + y)[0] == x[0]);
        assert((x + y).drop_first() =~= x.drop_first() + y);
        lemma_lines_acc_concat(x.drop_first(), y, cur.push(x[0]));
        assert(cur.push(x[0]) + x.drop_first() =~= cur + x);
    }
}

proof fn lemma_lines_acc_no_newline(s: Seq<char>, cur: Seq<char>)
    requires
        no_newline(cur),
    ensures
        all_no_newline(lines_acc(s, cur)),
    decreases s.len(),
{
    if s.len() == 0 {
    } else if s[0] == '\n' {
        lemma_lines_acc_no_newline(s.drop_first(), Seq::empty());
        let rest = lines_acc(s.drop_first(), Seq::<char>::empty());
        let all = seq![strip_cr(cur)] + rest;
        assert forall|k: int| 0 <= k < all.len() implies no_newline(#[trigger] all[k]) by {
            if k > 0 {
                assert(all[k] == rest[k - 1]);
            } else {
                assert(all[k] == strip_cr(cur));
            }
        }
    } else {
        lemma_lines_acc_no_newline(s.drop_first(), cur.push(s[0]));
    }
}

proof fn lemma_lines_of_joined(ls: Seq<Seq<char>>)
    requires
        ls.len() > 0,
        all_no_newline(ls),
    ensures
        lines(join_nl(ls).push('\n')) == ls.map_values(|l: Seq<char>| strip_cr(l)),
    decreases ls.len(),
{
    assert(no_newline(ls[0]));
    if ls.len() == 1 {
        assert(join_nl(ls).push('\n') =~= ls[0] + seq!['\n']);
        lemma_lines_acc_concat(ls[0], seq!['\n'], Seq::empty());
        assert(Seq::<char>::empty() + ls[0] =~= ls[0]);
        assert(seq!['\n'].drop_first() =~= Seq::<char>::empty());
        assert(lines_acc(seq!['\n'], ls[0]) == seq![strip_cr(ls[0])] + lines_acc(
            Seq::<char>::empty(),
            Seq::<char>::empty(),
        ));
        assert(lines_acc(Seq::<char>::empty(), Seq::<char>::empty()) =~= Seq::<Seq<char>>::empty());
        assert(ls.map_values(|l: Seq<char>| strip_cr(l)) =~= seq![strip_cr(ls[0])]);
    } else {
        let rest = ls.drop_first();
        assert forall|k: int| 0 <= k < rest.len() implies no_newline(#[trigger] rest[k]) by {
            assert(rest[k] == ls[k + 1]);
        }
        lemma_lines_of_joined(rest);
        let jr = join_nl(rest).push('\n');
        assert(join_nl(ls).push('\n') =~= ls[0] + (seq!['\n'] + jr));
        lemma_lines_acc_concat(ls[0], seq!['\n'] + jr, Seq::empty());
        assert(Seq::<char>::empty() + ls[0] =~= ls[0]);
        assert((seq!['\n'] + jr)[0] == '\n');
        assert((seq!['\n'] + jr).drop_first() =~= jr);
        assert(lines_acc(seq!['\n'] + jr, ls[0]) == seq![strip_cr(ls[0])] + lines_acc(
            jr,
            Seq::<char>::empty(),
        ));
        assert(ls.map_values(|l: Seq<char>| strip_cr(l)) =~= seq![strip_cr(ls[0])]
            + rest.map_values(|l: Seq<char>| strip_cr(l)));
    }
}

proof fn lemma_trim_bom_push(x: Seq<char>, c: char)
    requires
        c != '\u{feff}',
    ensures
        trim_bom(x.push(c)) == trim_bom(x).push(c),
    decreases x.len(),
{
    if x.len() == 0 {
        assert(x.push(c) =~= seq![c]);
    } else {
        assert(x.push(c)[0] == x[0]);
        if x[0] == '\u{feff}' {
            assert(x.push(c).drop_first() =~= x.drop_first().push(c));
            lemma_trim_bom_push(x.drop_first(), c);
        }
    }
}

proof fn lemma_trim_start_push(y: Seq<char>, c: char)
    ensures
        trim_start(y.push(c)) == (if trim_start(y).len() == 0 {
            trim_start(seq![c])
        } else {
            trim_start(y).push(c)
        }),
    decreases y.len(),
{
    if y.len() == 0 {
        assert(y.push(c) =~= seq![c]);
    } else {
        assert(y.push(c)[0] == y[0]);
        if is_ws(y[0]) {
            assert(y.push(c).drop_first() =~= y.drop_first().push(c));
            lemma_trim_start_push(y.drop_first(), c);
        }
    }
}

proof fn lemma_trim_end_push_ws(z: Seq<char>, c: char)
    requires
        is_ws(c),
    ensures
        trim_end(z.push(c)) == trim_end(z),
{
    assert(z.push(c).drop_last() =~= z);
}

proof fn lemma_goal_value_strip_cr(l: Seq<char>)
    ensures
        goal_value(strip_cr(l)) == goal_value(l),
{
    if l.len() > 0 && l.last() == '\r' {
        let x = l.drop_last();
        assert(x.push('\r') =~= l);
        lemma_trim_bom_push(x, '\r');
        let b = trim_bom(x);
        lemma_trim_start_push(b, '\r');
        if trim_start(b).len() == 0 {
            assert(seq!['\r'].drop_first() =~= Seq::<char>::empty());
            assert(trim_start(seq!['\r']) == trim_start(Seq::<char>::empty()));
        } else {
            lemma_trim_end_push_ws(trim_start(b), '\r');
        }
        assert(line_key(l) == line_key(x));
    }
}

proof fn lemma_trim_start_tabs(n: nat, t: Seq<char>)
    ensures
        trim_start(tabs(n) + t) == trim_start(t),
    decreases n,
{
    if n > 0 {
        assert((tabs(n) + t)[0] == '\t');
        assert((tabs(n) + t).drop_first() =~= tabs((n - 1) as nat) + t);
        lemma_trim_start_tabs((n - 1) as nat, t);
    } else {
        assert(tabs(n) + t =~= t);
    }
}

proof fn lemma_vanishing_line(n: nat)
    ensures
        goal_value(vanishing_line(n)) == Some("Vanishing"@),
        strip_cr(vanishing_line(n)) == vanishing_line(n),
        no_newline(vanishing_line(n)),
{
    reveal_strlit("String bp_goalAnimation = Vanishing");
    reveal_strlit("String bp_goalAnimation = ");
    reveal_strlit("Vanishing");
    let t = "String bp_goalAnimation = Vanishing"@;
    let l = vanishing_line(n);
    assert(l.last() == 'g');
    if n > 0 {
        assert(l[0] == '\t');
    } else {
        assert(l =~= t);
    }
    assert(trim_bom(l) == l);
    lemma_trim_start_tabs(n, t);
    assert(trim_start(t) == t);
    assert(trim_end(t) == t);
    assert(line_key(l) == t);
    assert(t.subrange(0, 26) =~= "String bp_goalAnimation = "@);
    assert(t.subrange(26, t.len() as int) =~= "Vanishing"@);
    let v = "Vanishing"@;
    assert(trim_start(v) == v);
    assert(trim_end(v) == v);
    assert forall|k: int| 0 <= k < l.len() implies l[k] != '\n' by {
        if k >= n {
            assert(l[k] == t[k - n]);
        }
    }
}

proof fn lemma_first_some_append<A>(a: Seq<Option<A>>, b: Seq<Option<A>>)
    ensures
        first_some(a + b) == (if first_some(a) is Some {
            first_some(a)
        } else {
            first_some(b)
        }),
    decreases a.len(),
{
    if a.len() == 0 {
        assert(a + b =~= b);
    } else {
        assert((a + b)[0] == a[0]);
        assert((a + b).drop_first() =~= a.drop_first() + b);
        lemma_first_some_append(a.drop_first(), b);
    }
}

proof fn lemma_rewrite(ls: Seq<Seq<char>>, state: GoalAnimationState)
    requires
        all_no_newline(ls),
    ensures
        all_no_newline(rewrite_lines(ls, state)),
        first_some(goal_values(rewrite_lines(ls, state))) == (if state
            == GoalAnimationState::Vanishing && has_override(ls) {
            Some("Vanishing"@)
        } else {
            None
        }),
    decreases ls.len(),
{
    if ls.len() == 0 {
        assert(!has_override(ls));
    } else {
        let l = ls[0];
        let rest = ls.drop_first();
        assert forall|k: int| 0 <= k < rest.len() implies no_newline(#[trigger] rest[k]) by {
            assert(rest[k] == ls[k + 1]);
        }
        lemma_rewrite(rest, state);
        let head = if goal_value(l) is Some {
            match state {
                GoalAnimationState::Vanishing => seq![vanishing_line(indent_len(l))],
                GoalAnimationState::Idle => Seq::<Seq<char>>::empty(),
            }
        } else {
            seq![l]
        };
        let rw = rewrite_lines(rest, state);
        assert(rewrite_lines(ls, state) == head + rw);
        lemma_vanishing_line(indent_len(l));
        assert(goal_values(head + rw) =~= goal_values(head) + goal_values(rw));
        lemma_first_some_append(goal_values(head), goal_values(rw));
        assert(has_override(ls) == (goal_value(l) is Some || has_override(rest))) by {
            if has_override(ls) && goal_value(l) is None {
                let k = choose|k: int| 0 <= k < ls.len() && (#[trigger] goal_value(ls[k])) is Some;
                assert(rest[k - 1] == ls[k]);
            }
            if has_override(rest) {
                let k = choose|k: int| 0 <= k < rest.len() && (#[trigger] goal_value(rest[k])) is Some;
                assert(ls[k + 1] == rest[k]);
            }
            if goal_value(l) is Some {
                assert(goal_value(ls[0]) is Some);
            }
        }
        let gh = goal_values(head);
        if goal_value(l) is Some {
            if state == GoalAnimationState::Vanishing {
                assert(gh[0] == goal_value(vanishing_line(indent_len(l))));
                assert(first_some(gh) == Some("Vanishing"@));
            } else {
                assert(gh =~= Seq::<Option<Seq<char>>>::empty());
                assert(first_some(gh) is None);
            }
        } else {
            assert(gh[0] is None);
            assert(gh.drop_first() =~= Seq::<Option<Seq<char>>>::empty());
            assert(first_some(gh.drop_first()) is None);
            assert(first_some(gh) is None);
        }
        let all = head + rw;
        assert forall|k: int| 0 <= k < all.len() implies no_newline(#[trigger] all[k]) by {
            if k < head.len() {
                assert(all[k] == head[k]);
            } else {
                assert(all[k] == rw[k - head.len()]);
            }
        }
    }
}

proof fn lemma_join_empty(ls: Seq<Seq<char>>)
    requires
        ls.len() > 0,
        join_nl(ls).len() == 0,
    ensures
        ls.len() == 1,
        ls[0].len() == 0,
{
    if ls.len() > 1 {
        assert((ls[0] + seq!['\n'] + join_nl(ls.drop_first())).len() > 0);
    }
}

/// Reading the state back from a text written for `state` gives `state`.
pub proof fn lemma_set_then_parse(text: Seq<char>, state: GoalAnimationState)
    ensures
        parse_state_spec(Some(set_state_spec(text, state))) == state,
{
    let ls = lines(text);
    lemma_lines_acc_no_newline(text, Seq::empty());
    lemma_rewrite(ls, state);
    let tail = if !has_override(ls) && state == GoalAnimationState::Vanishing {
        seq![vanishing_line(0)]
    } else {
        Seq::<Seq<char>>::empty()
    };
    let rw = rewrite_lines(ls, state);
    let r = set_lines(ls, state);
    assert(r == rw + tail);
    lemma_vanishing_line(0);
    assert(all_no_newline(r)) by {
        assert forall|k: int| 0 <= k < r.len() implies no_newline(#[trigger] r[k]) by {
            if k < rw.len() {
                assert(r[k] == rw[k]);
            } else {
                assert(r[k] == tail[k - rw.len()]);
            }
        }
    }
    assert(goal_values(r) =~= goal_values(rw) + goal_values(tail));
    lemma_first_some_append(goal_values(rw), goal_values(tail));
    if tail.len() > 0 {
        assert(goal_values(tail)[0] == Some("Vanishing"@));
    } else {
        assert(goal_values(tail) =~= Seq::<Option<Seq<char>>>::empty());
    }
    let want: Option<Seq<char>> = if state == GoalAnimationState::Vanishing {
        Some("Vanishing"@)
    } else {
        None
    };
    assert(first_some(goal_values(r)) == want);
    let j = join_nl(r);
    if j.len() > 0 {
        if r.len() == 0 {
            assert(j.len() == 0);
        }
        lemma_lines_of_joined(r);
        let stripped = r.map_values(|l: Seq<char>| strip_cr(l));
        assert(goal_values(stripped) =~= goal_values(r)) by {
            assert forall|k: int| 0 <= k < r.len() implies goal_values(stripped)[k] == goal_values(r)[k] by {
                lemma_goal_value_strip_cr(r[k]);
            }
        }
        assert(set_state_spec(text, state) == j.push('\n'));
    } else {
        assert(set_state_spec(text, state) == j);
        assert(lines(j) =~= Seq::<Seq<char>>::empty());
        assert(goal_values(lines(j)) =~= Seq::<Option<Seq<char>>>::empty());
        if state == GoalAnimationState::Vanishing {
            lemma_join_empty(r);
            reveal_strlit("String bp_goalAnimation = ");
            assert(goal_value(r[0]) is None) by {
                assert(trim_bom(r[0]) =~= Seq::<char>::empty());
            }
            assert(goal_values(r)[0] is None);
            assert(goal_values(r).drop_first() =~= Seq::<Option<Seq<char>>>::empty());
        }
    }
}


// ── What setting keeps ───────────────────────────────

/// The lines that are not override lines, in order.
pub open spec fn plain_lines(ls: Seq<Seq<char>>) -> Seq<Seq<char>>
    decreases ls.len(),
{
    if ls.len() == 0 {
        Seq::empty()
    } else {
        (if goal_value(ls[0]) is None {
            seq![ls[0]]
        } else {
            Seq::<Seq<char>>::empty()
        }) + plain_lines(ls.drop_first())
    }
}

proof fn lemma_plain_lines_append(a: Seq<Seq<char>>, b: Seq<Seq<char>>)
    ensures
        plain_lines(a + b) == plain_lines(a) + plain_lines(b),
    decreases a.len(),
{
    if a.len() == 0 {
        assert(a + b =~= b);
        assert(plain_lines(a) + plain_lines(b) =~= plain_lines(b));
    } else {
        assert((a + b)[0] == a[0]);
        assert((a + b).drop_first() =~= a.drop_first() + b);
        lemma_plain_lines_append(a.drop_first(), b);
        let h = if goal_value(a[0]) is None {
            seq![a[0]]
        } else {
            Seq::<Seq<char>>::empty()
        };
        assert(h + (plain_lines(a.drop_first()) + plain_lines(b)) =~= (h + plain_lines(
            a.drop_first(),
        )) + plain_lines(b));
    }
}

proof fn lemma_plain_lines_single(l: Seq<char>)
    ensures
        plain_lines(seq![l]) == (if goal_value(l) is None {
            seq![l]
        } else {
            Seq::<Seq<char>>::empty()
        }),
{
    assert(seq![l].drop_first() =~= Seq::<Seq<char>>::empty());
    assert(plain_lines(Seq::<Seq<char>>::empty()) == Seq::<Seq<char>>::empty());
    if goal_value(l) is None {
        assert(seq![l] + Seq::<Seq<char>>::empty() =~= seq![l]);
    } else {
        assert(Seq::<Seq<char>>::empty() + Seq::<Seq<char>>::empty() =~= Seq::<Seq<char>>::empty());
    }
}

proof fn lemma_plain_lines_rewrite(ls: Seq<Seq<char>>, state: GoalAnimationState)
    ensures
        plain_lines(rewrite_lines(ls, state)) == plain_lines(ls),
    decreases ls.len(),
{
    if ls.len() > 0 {
        let l = ls[0];
        let head = if goal_value(l) is Some {
            match state {
                GoalAnimationState::Vanishing => seq![vanishing_line(indent_len(l))],
                GoalAnimationState::Idle => Seq::<Seq<char>>::empty(),
            }
        } else {
            seq![l]
        };
        lemma_plain_lines_rewrite(ls.drop_first(), state);
        lemma_plain_lines_append(head, rewrite_lines(ls.drop_first(), state));
        lemma_vanishing_line(indent_len(l));
        if head.len() > 0 {
            lemma_plain_lines_single(head[0]);
            assert(head =~= seq![head[0]]);
        } else {
            assert(plain_lines(head) == Seq::<Seq<char>>::empty());
        }
        let h = if goal_value(l) is None {
            seq![l]
        } else {
            Seq::<Seq<char>>::empty()
        };
        assert(plain_lines(head) == h);
    }
}

proof fn lemma_plain_lines_strip_cr(ls: Seq<Seq<char>>)
    ensures
        plain_lines(ls.map_values(|l: Seq<char>| strip_cr(l))) == plain_lines(ls).map_values(
            |l: Seq<char>| strip_cr(l),
        ),
    decreases ls.len(),
{
    let m = ls.map_values(|l: Seq<char>| strip_cr(l));
    if ls.len() == 0 {
        assert(m =~= Seq::<Seq<char>>::empty());
        assert(plain_lines(ls).map_values(|l: Seq<char>| strip_cr(l)) =~= Seq::<Seq<char>>::empty());
    } else {
        assert(m[0] == strip_cr(ls[0]));
        assert(m.drop_first() =~= ls.drop_first().map_values(|l: Seq<char>| strip_cr(l)));
        lemma_plain_lines_strip_cr(ls.drop_first());
        lemma_goal_value_strip_cr(ls[0]);
        let h = if goal_value(ls[0]) is None {
            seq![ls[0]]
        } else {
            Seq::<Seq<char>>::empty()
        };
        let p = plain_lines(ls.drop_first());
        assert((h + p).map_values(|l: Seq<char>| strip_cr(l)) =~= h.map_values(
            |l: Seq<char>| strip_cr(l),
        ) + p.map_values(|l: Seq<char>| strip_cr(l)));
        if goal_value(ls[0]) is None {
            assert(h.map_values(|l: Seq<char>| strip_cr(l)) =~= seq![m[0]]);
        } else {
            assert(h.map_values(|l: Seq<char>| strip_cr(l)) =~= Seq::<Seq<char>>::empty());
        }
    }
}

/// The lines of the written text: those `set_lines` wrote, each read
/// without a trailing carriage return, or none when nothing was written.
proof fn lemma_lines_of_set(text: Seq<char>, state: GoalAnimationState)
    ensures
        all_no_newline(set_lines(lines(text), state)),
        join_nl(set_lines(lines(text), state)).len() > 0 ==> lines(set_state_spec(text, state))
            == set_lines(lines(text), state).map_values(|l: Seq<char>| strip_cr(l)),
        join_nl(set_lines(lines(text), state)).len() == 0 ==> lines(set_state_spec(text, state))
            == Seq::<Seq<char>>::empty(),
{
    let ls = lines(text);
    lemma_lines_acc_no_newline(text, Seq::empty());
    lemma_rewrite(ls, state);
    lemma_vanishing_line(0);
    let tail = if !has_override(ls) && state == GoalAnimationState::Vanishing {
        seq![vanishing_line(0)]
    } else {
        Seq::<Seq<char>>::empty()
    };
    let rw = rewrite_lines(ls, state);
    let r = set_lines(ls, state);
    assert(r == rw + tail);
    assert forall|k: int| 0 <= k < r.len() implies no_newline(#[trigger] r[k]) by {
        if k < rw.len() {
            assert(r[k] == rw[k]);
        } else {
            assert(r[k] == tail[k - rw.len()]);
        }
    }
    let j = join_nl(r);
    if j.len() > 0 {
        if r.len() == 0 {
            assert(j.len() == 0);
        }
        lemma_lines_of_joined(r);
        assert(set_state_spec(text, state) == j.push('\n'));
    } else {
        assert(set_state_spec(text, state) == j);
        assert(lines(j) =~= Seq::<Seq<char>>::empty());
    }
}

/// Setting the goal animation keeps every line that is not an override
/// line, in order, each read back without a trailing carriage return as
/// `str::lines` reads the written text. The one exception is a text whose
/// only written line is empty: it is written as the empty text.
pub proof fn lemma_set_keeps_other_lines(text: Seq<char>, state: GoalAnimationState)
    requires
        set_lines(lines(text), state) != seq![Seq::<char>::empty()],
    ensures
        plain_lines(lines(set_state_spec(text, state))) == plain_lines(lines(text)).map_values(
            |l: Seq<char>| strip_cr(l),
        ),
{
    lemma_lines_of_set(text, state);
    let ls = lines(text);
    let r = set_lines(ls, state);
    let rw = rewrite_lines(ls, state);
    let tail = if !has_override(ls) && state == GoalAnimationState::Vanishing {
        seq![vanishing_line(0)]
    } else {
        Seq::<Seq<char>>::empty()
    };
    assert(r == rw + tail);
    lemma_plain_lines_append(rw, tail);
    lemma_plain_lines_rewrite(ls, state);
    lemma_vanishing_line(0);
    if tail.len() > 0 {
        lemma_plain_lines_single(vanishing_line(0));
    }
    assert(plain_lines(tail) == Seq::<Seq<char>>::empty());
    assert(plain_lines(r) =~= plain_lines(ls));
    if join_nl(r).len() > 0 {
        lemma_plain_lines_strip_cr(r);
    } else {
        if r.len() > 0 {
            lemma_join_empty(r);
            assert(r[0] =~= Seq::<char>::empty());
            assert(r =~= seq![Seq::<char>::empty()]);
        }
        assert(plain_lines(r) == Seq::<Seq<char>>::empty());
        assert(plain_lines(ls).map_values(|l: Seq<char>| strip_cr(l)) =~= Seq::<
            Seq<char>,
        >::empty());
    }
}

/// Every override line is the vanishing line at its own indent, and only
/// when the state is `Vanishing`.
pub open spec fn settled(ls: Seq<Seq<char>>, state: GoalAnimationState) -> bool {
    forall|k: int|
        0 <= k < ls.len() && goal_value(#[trigger] ls[k]) is Some ==> state
            == GoalAnimationState::Vanishing && ls[k] == vanishing_line(indent_len(ls[k]))
}

proof fn lemma_indent_vanishing(n: nat)
    ensures
        indent_len(vanishing_line(n)) == n,
    decreases n,
{
    reveal_strlit("String bp_goalAnimation = Vanishing");
    if n > 0 {
        assert(vanishing_line(n)[0] == '\t');
        assert(vanishing_line(n).drop_first() =~= vanishing_line((n - 1) as nat));
        lemma_indent_vanishing((n - 1) as nat);
    } else {
        assert(vanishing_line(n) =~= "String bp_goalAnimation = Vanishing"@);
    }
}

proof fn lemma_rewrite_settled(ls: Seq<Seq<char>>, state: GoalAnimationState)
    requires
        forall|k: int|
            0 <= k < ls.len() && goal_value(#[trigger] ls[k]) is None ==> strip_cr(ls[k]) == ls[k],
    ensures
        settled(rewrite_lines(ls, state), state),
        forall|k: int|
            0 <= k < rewrite_lines(ls, state).len() ==> strip_cr(
                #[trigger] rewrite_lines(ls, state)[k],
            ) == rewrite_lines(ls, state)[k],
        state == GoalAnimationState::Vanishing && has_override(ls) ==> has_override(
            rewrite_lines(ls, state),
        ),
    decreases ls.len(),
{
    if ls.len() > 0 {
        let l = ls[0];
        let rest = ls.drop_first();
        assert forall|k: int|
            0 <= k < rest.len() && goal_value(#[trigger] rest[k]) is None implies strip_cr(rest[k])
            == rest[k] by {
            assert(rest[k] == ls[k + 1]);
        }
        lemma_rewrite_settled(rest, state);
        let head = if goal_value(l) is Some {
            match state {
                GoalAnimationState::Vanishing => seq![vanishing_line(indent_len(l))],
                GoalAnimationState::Idle => Seq::<Seq<char>>::empty(),
            }
        } else {
            seq![l]
        };
        let rw = rewrite_lines(rest, state);
        let all = head + rw;
        assert(rewrite_lines(ls, state) == all);
        lemma_vanishing_line(indent_len(l));
        lemma_indent_vanishing(indent_len(l));
        assert(goal_value(ls[0]) is None ==> strip_cr(ls[0]) == ls[0]);
        assert forall|k: int| 0 <= k < all.len() && goal_value(#[trigger] all[k]) is Some implies state
            == GoalAnimationState::Vanishing && all[k] == vanishing_line(indent_len(all[k])) by {
            if k < head.len() {
                assert(all[k] == head[k]);
            } else {
                assert(all[k] == rw[k - head.len()]);
            }
        }
        assert forall|k: int| 0 <= k < all.len() implies strip_cr(#[trigger] all[k]) == all[k] by {
            if k < head.len() {
                assert(all[k] == head[k]);
            } else {
                assert(all[k] == rw[k - head.len()]);
            }
        }
        if state == GoalAnimationState::Vanishing && has_override(ls) {
            if goal_value(l) is Some {
                assert(all[0] == head[0]);
                assert(goal_value(all[0]) is Some);
            } else {
                let k = choose|k: int| 0 <= k < ls.len() && (#[trigger] goal_value(ls[k])) is Some;
                assert(k > 0);
                assert(rest[k - 1] == ls[k]);
                assert(has_override(rest));
                let m = choose|m: int| 0 <= m < rw.len() && (#[trigger] goal_value(rw[m])) is Some;
                assert(all[m + head.len()] == rw[m]);
            }
        }
    }
}

proof fn lemma_rewrite_fixed(ls: Seq<Seq<char>>, state: GoalAnimationState)
    requires
        settled(ls, state),
    ensures
        rewrite_lines(ls, state) == ls,
    decreases ls.len(),
{
    if ls.len() > 0 {
        let rest = ls.drop_first();
        assert forall|k: int| 0 <= k < rest.len() && goal_value(#[trigger] rest[k]) is Some implies state
            == GoalAnimationState::Vanishing && rest[k] == vanishing_line(indent_len(rest[k])) by {
            assert(rest[k] == ls[k + 1]);
        }
        lemma_rewrite_fixed(rest, state);
        assert(goal_value(ls[0]) is Some ==> state == GoalAnimationState::Vanishing && ls[0]
            == vanishing_line(indent_len(ls[0])));
        assert(ls =~= seq![ls[0]] + rest);
    }
}

/// Setting the goal animation twice to the same state changes nothing more
/// than setting it once, unless a kept line ends in a carriage return
/// (which a second reading of the text drops).
pub proof fn lemma_set_twice_is_set_once(text: Seq<char>, state: GoalAnimationState)
    requires
        forall|k: int|
            0 <= k < lines(text).len() && goal_value(#[trigger] lines(text)[k]) is None ==> strip_cr(
                lines(text)[k],
            ) == lines(text)[k],
    ensures
        set_state_spec(set_state_spec(text, state), state) == set_state_spec(text, state),
{
    let ls = lines(text);
    let r = set_lines(ls, state);
    let rw = rewrite_lines(ls, state);
    let tail = if !has_override(ls) && state == GoalAnimationState::Vanishing {
        seq![vanishing_line(0)]
    } else {
        Seq::<Seq<char>>::empty()
    };
    assert(r == rw + tail);
    lemma_lines_of_set(text, state);
    lemma_rewrite_settled(ls, state);
    lemma_vanishing_line(0);
    lemma_indent_vanishing(0);
    assert forall|k: int| 0 <= k < r.len() && goal_value(#[trigger] r[k]) is Some implies state
        == GoalAnimationState::Vanishing && r[k] == vanishing_line(indent_len(r[k])) by {
        if k < rw.len() {
            assert(r[k] == rw[k]);
        } else {
            assert(r[k] == tail[k - rw.len()]);
        }
    }
    assert forall|k: int| 0 <= k < r.len() implies strip_cr(#[trigger] r[k]) == r[k] by {
        if k < rw.len() {
            assert(r[k] == rw[k]);
        } else {
            assert(r[k] == tail[k - rw.len()]);
        }
    }
    lemma_rewrite_fixed(r, state);
    if state == GoalAnimationState::Vanishing {
        if has_override(ls) {
            let m = choose|m: int| 0 <= m < rw.len() && (#[trigger] goal_value(rw[m])) is Some;
            assert(r[m] == rw[m]);
        } else {
            assert(r[rw.len() as int] == vanishing_line(0));
        }
        assert(has_override(r));
    }
    assert(set_lines(r, state) == r);
    let t1 = set_state_spec(text, state);
    if join_nl(r).len() > 0 {
        assert(r.map_values(|l: Seq<char>| strip_cr(l)) =~= r);
        assert(lines(t1) == r);
    } else {
        assert(lines(t1) == Seq::<Seq<char>>::empty());
        if state == GoalAnimationState::Vanishing {
            let m = choose|m: int| 0 <= m < r.len() && (#[trigger] goal_value(r[m])) is Some;
            lemma_join_empty(r);
            reveal_strlit("String bp_goalAnimation = ");
            assert(goal_value(r[0]) is None) by {
                assert(trim_bom(r[0]) =~= Seq::<char>::empty());
            }
        }
        assert(!has_override(Seq::<Seq<char>>::empty()));
        assert(rewrite_lines(Seq::<Seq<char>>::empty(), state) == Seq::<Seq<char>>::empty());
        assert(set_lines(Seq::<Seq<char>>::empty(), state) =~= Seq::<Seq<char>>::empty());
        assert(t1 == join_nl(r));
        assert(join_nl(Seq::<Seq<char>>::empty()).len() == 0);
    }
}

} // verus!
