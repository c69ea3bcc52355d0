//! Unity animation text made readable as plain YAML: the directives go and
//! each document marker loses its Unity class tag.

use vstd::prelude::*;
use crate::text::{chars_to_string, lines, split_lines, starts_with, starts_with_lit, str_chars, vv};

verus! {

/// One line of the sanitized text: `%YAML` and `%TAG` directives are
/// dropped, a `--- !u!…` marker becomes `---`, and any other line stays;
/// each kept line ends with a newline.
pub open spec fn sanitize_line(l: Seq<char>) -> Seq<char> {
    if starts_with(l, "%YAML"@) || starts_with(l, "%TAG"@) {
        Seq::empty()
    } else if starts_with(l, "--- !u!"@) {
        "---\n"@
    } else {
        l.push('\n')
    }
}

pub open spec fn sanitize_lines(ls: Seq<Seq<char>>) -> Seq<char>
    decreases ls.len(),
{
    if ls.len() == 0 {
        Seq::empty()
    } else {
        sanitize_lines(ls.drop_last()) + sanitize_line(ls.last())
    }
}

fn push_all(out: &mut Vec<char>, s: &[char])
    ensures
        final(out)@ == old(out)@ + s@,
{
    let ghost start = out@;
    let mut k: usize = 0;
    while k < s.len()
        invariant
            k <= s@.len(),
            out@ == start + s@.take(k as int),
        decreases s.len() - k,
    {
        out.push(s[k]);
        k = k + 1;
        assert(out@ =~= start + s@.take(k as int));
    }
    assert(s@.take(k as int) =~= s@);
}

/// A Unity animation asset's text as plain YAML.
pub fn sanitize_unity_yaml(text: &str) -> (r: String)
    ensures
        r@ == sanitize_lines(lines(text@)),
{
    let t = str_chars(text);
    let ls = split_lines(t.as_slice());
    let ghost lv = vv(ls@);
    let marker = str_chars("---\n");
    let mut out: Vec<char> = Vec::new();
    let mut i: usize = 0;
    while i < ls.len()
        invariant
            lv == vv(ls@),
            lv == lines(text@),
            marker@ == "---\n"@,
            i <= lv.len(),
            out@ == sanitize_lines(lv.take(i as int)),
        decreases ls.len() - i,
    {
        let line = ls[i].as_slice();
        assert(line@ == lv[i as int]);
        assert(lv.take(i + 1).drop_last() =~= lv.take(i as int));
        assert(lv.take(i + 1).last() == lv[i as int]);
        let ghost before = out@;
        if starts_with_lit(line, "%YAML") || starts_with_lit(line, "%TAG") {
            assert(out@ =~= before + sanitize_line(line@));
        } else if starts_with_lit(line, "--- !u!") {
            push_all(&mut out, marker.as_slice());
        } else {
            push_all(&mut out, line);
            out.push('\n');
            assert(out@ =~= before + line@.push('\n'));
        }
        i = i + 1;
    }
    assert(lv.take(i as int) =~= lv);
    chars_to_string(out.as_slice())
}

} // verus!
