//! Lexicographic order of char sequences (the order of `String`, since UTF-8
//! byte order follows code point order) and sorted, duplicate-free vectors of
//! strings.

use vstd::prelude::*;
use crate::text::strings_view;

verus! {

/// `a < b` in lexicographic code point order.
pub open spec fn lex_lt(a: Seq<char>, b: Seq<char>) -> bool
    decreases a.len(),
{
    if a.len() == 0 {
        b.len() > 0
    } else if b.len() == 0 {
        false
    } else if (a[0] as int) < (b[0] as int) {
        true
    } else if a[0] == b[0] {
        lex_lt(a.drop_first(), b.drop_first())
    } else {
        false
    }
}

pub proof fn lemma_lex_irreflexive(a: Seq<char>)
    ensures
        !lex_lt(a, a),
    decreases a.len(),
{
    if a.len() > 0 {
        lemma_lex_irreflexive(a.drop_first());
    }
}

pub proof fn lemma_lex_transitive(a: Seq<char>, b: Seq<char>, c: Seq<char>)
    requires
        lex_lt(a, b),
        lex_lt(b, c),
    ensures
        lex_lt(a, c),
    decreases a.len(),
{
    if a.len() > 0 && b.len() > 0 && c.len() > 0 {
        if a[0] == b[0] && b[0] == c[0] {
            lemma_lex_transitive(a.drop_first(), b.drop_first(), c.drop_first());
        }
    }
}

pub proof fn lemma_lex_total(a: Seq<char>, b: Seq<char>)
    ensures
        lex_lt(a, b) || lex_lt(b, a) || a == b,
    decreases a.len(),
{
    if a.len() > 0 && b.len() > 0 {
        if a[0] == b[0] {
            lemma_lex_total(a.drop_first(), b.drop_first());
            if a.drop_first() == b.drop_first() {
                assert(a =~= seq![a[0]] + a.drop_first());
                assert(b =~= seq![b[0]] + b.drop_first());
            }
        } else {
            assert((a[0] as int) != (b[0] as int));
        }
    } else if a.len() == 0 && b.len() == 0 {
        assert(a =~= b);
    }
}

/// Strictly increasing, hence free of duplicates.
pub open spec fn strictly_sorted(s: Seq<Seq<char>>) -> bool {
    forall|i: int, j: int| 0 <= i < j < s.len() ==> lex_lt(#[trigger] s[i], #[trigger] s[j])
}

/// `a < b` for two char sequences.
pub fn lex_less(a: &[char], b: &[char]) -> (r: bool)
    ensures
        r == lex_lt(a@, b@),
{
    let mut k: usize = 0;
    assert(a@.skip(0) =~= a@);
    assert(b@.skip(0) =~= b@);
    while k < a.len() && k < b.len()
        invariant
            k <= a@.len(),
            k <= b@.len(),
            lex_lt(a@, b@) == lex_lt(a@.skip(k as int), b@.skip(k as int)),
        decreases a.len() - k,
    {
        let x = a[k];
        let y = b[k];
        if x < y {
            return true;
        }
        if x != y {
            return false;
        }
        assert(a@.skip(k as int).drop_first() =~= a@.skip(k + 1));
        assert(b@.skip(k as int).drop_first() =~= b@.skip(k + 1));
        k = k + 1;
    }
    k == a.len() && k < b.len()
}

fn less_at(v: &Vec<String>, j: usize, x: &[char]) -> (r: bool)
    requires
        j < v@.len(),
    ensures
        r == lex_lt(v@[j as int]@, x@),
{
    let cur = crate::text::str_chars(v[j].as_str());
    lex_less(cur.as_slice(), x)
}

/// Adds `x` to a strictly sorted vector unless it is already there.
pub fn sorted_insert(v: &mut Vec<String>, x: String)
    requires
        strictly_sorted(strings_view(old(v)@)),
    ensures
        strictly_sorted(strings_view(final(v)@)),
        forall|t: Seq<char>|
            #[trigger] strings_view(final(v)@).contains(t) <==> (strings_view(old(v)@).contains(t)
                || t == x@),
{
    let ghost sv = strings_view(v@);
    let xc = crate::text::str_chars(x.as_str());
    let mut j: usize = 0;
    while j < v.len() && less_at(v, j, xc.as_slice())
        invariant
            sv == strings_view(v@),
            strictly_sorted(sv),
            xc@ == x@,
            j <= v@.len(),
            forall|k: int| 0 <= k < j ==> lex_lt(#[trigger] sv[k], x@),
        decreases v.len() - j,
    {
        j = j + 1;
    }
    if j < v.len() {
        let cur = crate::text::str_chars(v[j].as_str());
        assert(cur@ == sv[j as int]);
        if crate::text::chars_eq(cur.as_slice(), xc.as_slice()) {
            assert(sv.contains(x@)) by {
                assert(sv[j as int] == x@);
            }
            return;
        }
        proof {
            lemma_lex_total(sv[j as int], x@);
        }
    }
    let ghost old_v = v@;
    v.insert(j, x);
    proof {
        let nv = strings_view(v@);
        assert(nv.len() == sv.len() + 1);
        assert forall|k: int| 0 <= k < nv.len() implies #[trigger] nv[k] == (if k < j {
            sv[k]
        } else if k == j {
            x@
        } else {
            sv[k - 1]
        }) by {
            if k < j {
                assert(v@[k] == old_v[k]);
            } else if k > j {
                assert(v@[k] == old_v[k - 1]);
            }
        }
        if j < sv.len() {
            assert(lex_lt(x@, sv[j as int]));
        }
        assert forall|a: int, b: int| 0 <= a < b < nv.len() implies lex_lt(
            #[trigger] nv[a],
            #[trigger] nv[b],
        ) by {
            if b < j {
            } else if b == j {
            } else if a < j {
                // sv[a] < x < sv[j] <= sv[b-1]
                if j < sv.len() {
                    if b - 1 > j {
                        lemma_lex_transitive(x@, sv[j as int], sv[b - 1]);
                    }
                    lemma_lex_transitive(sv[a], x@, sv[b - 1]);
                }
            } else if a == j {
                if b - 1 > j {
                    lemma_lex_transitive(x@, sv[j as int], sv[b - 1]);
                }
            } else {
            }
        }
        assert forall|t: Seq<char>| nv.contains(t) <==> (sv.contains(t) || t == x@) by {
            if nv.contains(t) {
                let k = choose|k: int| 0 <= k < nv.len() && nv[k] == t;
                if k < j {
                    assert(sv[k] == t);
                } else if k > j {
                    assert(sv[k - 1] == t);
                }
            }
            if sv.contains(t) {
                let k = choose|k: int| 0 <= k < sv.len() && sv[k] == t;
                if k < j {
                    assert(nv[k] == t);
                } else {
                    assert(nv[k + 1] == t);
                }
            }
            if t == x@ {
                assert(nv[j as int] == t);
            }
        }
    }
}

} // verus!
