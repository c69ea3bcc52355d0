//! Object tree rules: where a dragged object goes, and how a click in the
//! tree changes the selection (plain, Cmd-toggle and Shift-range clicks).

use vstd::prelude::*;

verus! {

/// Where to drop an item in the tree.
#[derive(Debug, Clone, Copy, PartialEq, Eq)]
pub enum DropPosition {
    /// Insert before `target` in its parent's children list (or in roots).
    Before(usize),
    /// Insert after `target` in its parent's children list (or in roots).
    After(usize),
    /// Insert as the last child of a parent object.
    IntoParent(usize),
}

/// Position of the first occurrence of `x`.
pub open spec fn position_from(s: Seq<usize>, x: usize, i: int) -> Option<int>
    decreases s.len() - i,
{
    if i < 0 || i >= s.len() {
        None
    } else if s[i] == x {
        Some(i)
    } else {
        position_from(s, x, i + 1)
    }
}

pub open spec fn position(s: Seq<usize>, x: usize) -> Option<int> {
    position_from(s, x, 0)
}

/// The objects of `flat` from position `lo` to `hi`, both included.
pub open spec fn range_set(flat: Seq<usize>, lo: int, hi: int) -> Set<usize> {
    Set::new(|x: usize| exists|k: int| lo <= k <= hi && 0 <= k < flat.len() && flat[k] == x)
}

/// The selection and anchor after a click on `clicked`, where `flat` is
/// the tree in display order. A Shift-click selects the range from the
/// anchor to the clicked object (added to the selection with Cmd, in place
/// of it without); with no anchor it selects the clicked object alone and
/// anchors there; with an anchor or a clicked object not in the tree it
/// changes nothing. A Cmd-click toggles the clicked object; a plain click
/// selects it alone. Both anchor there.
pub open spec fn click_selection_spec(
    flat: Seq<usize>,
    selected: Set<usize>,
    anchor: Option<usize>,
    clicked: usize,
    shift: bool,
    command: bool,
) -> (Set<usize>, Option<usize>) {
    if shift {
        match anchor {
            Some(a) => match (position(flat, a), position(flat, clicked)) {
                (Some(i), Some(j)) => {
                    let lo = if i <= j { i } else { j };
                    let hi = if i <= j { j } else { i };
                    let base = if command { selected } else { Set::empty() };
                    (base + range_set(flat, lo, hi), anchor)
                },
                _ => (selected, anchor),
            },
            None => (set![clicked], Some(clicked)),
        }
    } else if command {
        if selected.contains(clicked) {
            (selected.remove(clicked), Some(clicked))
        } else {
            (selected.insert(clicked), Some(clicked))
        }
    } else {
        (set![clicked], Some(clicked))
    }
}

fn position_of(s: &[usize], x: usize) -> (r: Option<usize>)
    ensures
        match r {
            Some(i) => position(s@, x) == Some(i as int) && i < s@.len(),
            None => position(s@, x) is None,
        },
{
    let mut i: usize = 0;
    while i < s.len()
        invariant
            i <= s@.len(),
            position(s@, x) == position_from(s@, x, i as int),
        decreases s.len() - i,
    {
        if s[i] == x {
            return Some(i);
        }
        i = i + 1;
    }
    None
}

fn contains_index(s: &Vec<usize>, x: usize) -> (r: bool)
    ensures
        r == s@.contains(x),
{
    let mut i: usize = 0;
    while i < s.len()
        invariant
            i <= s@.len(),
            forall|k: int| 0 <= k < i ==> s@[k] != x,
        decreases s.len() - i,
    {
        if s[i] == x {
            return true;
        }
        i = i + 1;
    }
    false
}

proof fn lemma_push_fresh_keeps_distinct(s: Seq<usize>, x: usize)
    requires
        s.no_duplicates(),
        !s.contains(x),
    ensures
        s.push(x).no_duplicates(),
{
    let t = s.push(x);
    assert forall|i: int, j: int| 0 <= i < t.len() && 0 <= j < t.len() && i != j implies t[i] != t[j] by {
        if i < s.len() && j < s.len() {
            assert(t[i] == s[i] && t[j] == s[j]);
        } else if i < s.len() {
            assert(t[i] == s[i]);
        } else if j < s.len() {
            assert(t[j] == s[j]);
        }
    }
}

/// The selection (each object once) and anchor after a click in the tree.
/// The selection comes in as a set, so each object once.
pub fn click_selection(
    flat: &[usize],
    selected: &Vec<usize>,
    anchor: Option<usize>,
    clicked: usize,
    shift: bool,
    command: bool,
) -> (r: (Vec<usize>, Option<usize>))
    requires
        selected@.no_duplicates(),
    ensures
        r.0@.no_duplicates(),
        r.0@.to_set() == click_selection_spec(
            flat@,
            selected@.to_set(),
            anchor,
            clicked,
            shift,
            command,
        ).0,
        r.1 == click_selection_spec(flat@, selected@.to_set(), anchor, clicked, shift, command).1,
{
    let ghost expected = click_selection_spec(
        flat@,
        selected@.to_set(),
        anchor,
        clicked,
        shift,
        command,
    );
    if shift {
        match anchor {
            Some(a) => {
                match (position_of(flat, a), position_of(flat, clicked)) {
                    (Some(i), Some(j)) => {
                        let lo = if i <= j {
                            i
                        } else {
                            j
                        };
                        let hi = if i <= j {
                            j
                        } else {
                            i
                        };
                        let mut out: Vec<usize> = Vec::new();
                        if command {
                            let mut k: usize = 0;
                            while k < selected.len()
                                invariant
                                    k <= selected@.len(),
                                    out@ == selected@.take(k as int),
                                decreases selected.len() - k,
                            {
                                out.push(selected[k]);
                                k = k + 1;
                                assert(out@ =~= selected@.take(k as int));
                            }
                            assert(selected@.take(k as int) =~= selected@);
                        }
                        let ghost base: Set<usize> = if command {
                            selected@.to_set()
                        } else {
                            Set::empty()
                        };
                        assert(out@.to_set() =~= base);
                        let mut k: usize = lo;
                        while k <= hi
                            invariant
                                lo <= k <= hi + 1,
                                hi < flat@.len(),
                                out@.no_duplicates(),
                                out@.to_set() == base + range_set(flat@, lo as int, k - 1),
                            decreases hi + 1 - k,
                        {
                            let x = flat[k];
                            let ghost old_out = out@;
                            if !contains_index(&out, x) {
                                out.push(x);
                                proof {
                                    old_out.lemma_push_to_set_commute(x);
                                    lemma_push_fresh_keeps_distinct(old_out, x);
                                }
                            } else {
                                assert(old_out.to_set().insert(x) =~= old_out.to_set());
                            }
                            assert(out@.to_set() == old_out.to_set().insert(x));
                            assert(out@.to_set() =~= base + range_set(flat@, lo as int, k as int)) by {
                                assert forall|y: usize| #[trigger] out@.to_set().contains(y) <==> (
                                base + range_set(flat@, lo as int, k as int)).contains(y) by {
                                    if range_set(flat@, lo as int, k as int).contains(y) {
                                        let m = choose|m: int|
                                            lo <= m <= k && 0 <= m < flat@.len() && flat@[m] == y;
                                        if m < k {
                                            assert(range_set(flat@, lo as int, k - 1).contains(y));
                                        }
                                    }
                                    if range_set(flat@, lo as int, k - 1).contains(y) {
                                        let m = choose|m: int|
                                            lo <= m <= k - 1 && 0 <= m < flat@.len() && flat@[m]
                                                == y;
                                        assert(lo <= m <= k);
                                    }
                                    if y == x {
                                        assert(range_set(flat@, lo as int, k as int).contains(y));
                                    }
                                }
                            }
                            k = k + 1;
                        }
                        (out, anchor)
                    },
                    _ => {
                        let mut out: Vec<usize> = Vec::new();
                        let mut k: usize = 0;
                        while k < selected.len()
                            invariant
                                k <= selected@.len(),
                                out@ == selected@.take(k as int),
                            decreases selected.len() - k,
                        {
                            out.push(selected[k]);
                            k = k + 1;
                            assert(out@ =~= selected@.take(k as int));
                        }
                        assert(selected@.take(k as int) =~= selected@);
                        (out, anchor)
                    },
                }
            },
            None => {
                let mut out: Vec<usize> = Vec::new();
                out.push(clicked);
                assert(out@.to_set() =~= set![clicked]) by {
                    assert(out@[0] == clicked);
                }
                (out, Some(clicked))
            },
        }
    } else if command {
        let present = contains_index(selected, clicked);
        let mut out: Vec<usize> = Vec::new();
        let mut k: usize = 0;
        while k < selected.len()
            invariant
                k <= selected@.len(),
                selected@.no_duplicates(),
                out@.no_duplicates(),
                out@.to_set() == selected@.take(k as int).to_set().remove(clicked),
            decreases selected.len() - k,
        {
            let ghost before = out@;
            if selected[k] != clicked {
                out.push(selected[k]);
                proof {
                    before.lemma_push_to_set_commute(selected@[k as int]);
                    if before.contains(selected@[k as int]) {
                        let m = choose|m: int| 0 <= m < before.len() && before[m] == selected@[k as int];
                        assert(before.to_set().contains(before[m]));
                        assert(selected@.take(k as int).to_set().contains(selected@[k as int]));
                        assert(selected@.take(k as int).contains(selected@[k as int]));
                        let q = choose|q: int| 0 <= q < k && selected@.take(k as int)[q] == selected@[k as int];
                        assert(selected@[q] == selected@[k as int]);
                    }
                    lemma_push_fresh_keeps_distinct(before, selected@[k as int]);
                }
            }
            assert(selected@.take(k + 1) =~= selected@.take(k as int).push(selected@[k as int]));
            proof {
                selected@.take(k as int).lemma_push_to_set_commute(selected@[k as int]);
            }
            assert(out@.to_set() =~= selected@.take(k + 1).to_set().remove(clicked));
            k = k + 1;
        }
        assert(selected@.take(k as int) =~= selected@);
        if !present {
            let ghost before = out@;
            out.push(clicked);
            proof {
                before.lemma_push_to_set_commute(clicked);
                if before.contains(clicked) {
                    let m = choose|m: int| 0 <= m < before.len() && before[m] == clicked;
                    assert(before.to_set().contains(before[m]));
                }
                lemma_push_fresh_keeps_distinct(before, clicked);
            }
            assert(selected@.to_set().remove(clicked) =~= selected@.to_set());
            assert(out@.to_set() =~= selected@.to_set().insert(clicked));
        }
        (out, Some(clicked))
    } else {
        let mut out: Vec<usize> = Vec::new();
        out.push(clicked);
        assert(out@.to_set() =~= set![clicked]) by {
            assert(out@[0] == clicked);
        }
        (out, Some(clicked))
    }
}

} // verus!
