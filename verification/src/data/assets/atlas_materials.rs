//! The in-game atlas of each material, as listed by the `AtlasMaterials`
//! prefab: its `normalMaterials`, `dimmedRenderQueueMaterials`,
//! `renderQueueMaterials`, `partQueueZMaterials` and `grayMaterials` lists
//! each name the materials of `IngameAtlas.png`, `IngameAtlas2.png` and
//! `IngameAtlas3.png`, in that order.

use vstd::prelude::*;
use crate::text::{
    byte_prefix, byte_prefix_or_all, chars_eq, chars_to_string, ends_with, ends_with_lit, eq_lit,
    find, find_lit, is_ascii_hexdigit, is_hexdigit_char, lines, split_lines, starts_with, starts_with_lit, str_chars,
    trim, trim_chars, vv,
};

verus! {

/// The in-game atlas files, by position in a material list.
pub open spec fn atlas_file(i: int) -> Seq<char> {
    if i == 0 {
        "IngameAtlas.png"@
    } else if i == 1 {
        "IngameAtlas2.png"@
    } else {
        "IngameAtlas3.png"@
    }
}

fn atlas_file_exec(i: usize) -> (r: String)
    requires
        i < 3,
    ensures
        r@ == atlas_file(i as int),
{
    if i == 0 {
        "IngameAtlas.png".to_string()
    } else if i == 1 {
        "IngameAtlas2.png".to_string()
    } else {
        "IngameAtlas3.png".to_string()
    }
}

/// The section a header line opens: `Some(Some(k))` for the k-th material
/// list, `Some(None)` for any other `...:` header, `None` for a line that
/// opens none.
pub open spec fn section_header(t: Seq<char>) -> Option<Option<int>> {
    if t == "normalMaterials:"@ {
        Some(Some(0))
    } else if t == "dimmedRenderQueueMaterials:"@ {
        Some(Some(1))
    } else if t == "renderQueueMaterials:"@ {
        Some(Some(2))
    } else if t == "partQueueZMaterials:"@ {
        Some(Some(3))
    } else if t == "grayMaterials:"@ {
        Some(Some(4))
    } else if ends_with(t, ":"@) {
        Some(None)
    } else {
        None
    }
}

/// The section in force after the first `n` lines.
pub open spec fn section_after(ls: Seq<Seq<char>>, n: nat) -> Option<int>
    decreases n,
{
    if n == 0 {
        None
    } else {
        match section_header(trim(ls[n - 1])) {
            Some(s) => s,
            None => section_after(ls, (n - 1) as nat),
        }
    }
}

/// Length of the run of ASCII hex digits that `s` starts with.
pub open spec fn hex_run(s: Seq<char>) -> nat
    decreases s.len(),
{
    if s.len() > 0 && is_ascii_hexdigit(s[0]) {
        1 + hex_run(s.drop_first())
    } else {
        0
    }
}

/// The hex GUID after the first `guid: ` of a line, when not empty.
pub open spec fn extract_guid_spec(l: Seq<char>) -> Option<Seq<char>> {
    match find(l, "guid: "@) {
        Some(p) => {
            let rest = l.skip(p + "guid: "@.len());
            let g = rest.take(hex_run(rest) as int);
            if g.len() > 0 {
                Some(g)
            } else {
                None
            }
        },
        None => None,
    }
}

/// The material GUID a line lists for section `sec`, if any.
pub open spec fn listed_guid(ls: Seq<Seq<char>>, sec: int, j: int) -> Option<Seq<char>> {
    let t = trim(ls[j]);
    if section_after(ls, (j + 1) as nat) == Some(sec) && starts_with(t, "- "@) {
        extract_guid_spec(t)
    } else {
        None
    }
}

/// The GUIDs listed for section `sec` in the first `n` lines, in order.
pub open spec fn section_guids(ls: Seq<Seq<char>>, sec: int, n: nat) -> Seq<Seq<char>>
    decreases n,
{
    if n == 0 {
        Seq::empty()
    } else {
        let prev = section_guids(ls, sec, (n - 1) as nat);
        match listed_guid(ls, sec, n - 1) {
            Some(g) => prev.push(g),
            None => prev,
        }
    }
}

/// The first eight bytes of a GUID, or the whole GUID where no char
/// boundary falls there.
pub open spec fn guid_prefix_spec(g: Seq<char>) -> Seq<char> {
    match byte_prefix(g, 8) {
        Some(p) => p,
        None => g,
    }
}

/// The (GUID prefix, atlas) pairs one section contributes.
pub open spec fn section_entries(gs: Seq<Seq<char>>) -> Seq<(Seq<char>, Seq<char>)> {
    let n = if gs.len() < 3 { gs.len() as int } else { 3 };
    Seq::new(n as nat, |i: int| (guid_prefix_spec(gs[i]), atlas_file(i)))
}

/// The pairs of the first `k` sections, in insertion order.
pub open spec fn entries_upto(ls: Seq<Seq<char>>, k: nat) -> Seq<(Seq<char>, Seq<char>)>
    decreases k,
{
    if k == 0 {
        Seq::empty()
    } else {
        entries_upto(ls, (k - 1) as nat) + section_entries(
            section_guids(ls, k - 1, ls.len()),
        )
    }
}

/// The pairs the prefix text yields; a later pair for the same key replaces
/// an earlier one.
pub open spec fn atlas_entries_spec(text: Seq<char>) -> Seq<(Seq<char>, Seq<char>)> {
    entries_upto(lines(text), 5)
}

/// The value of the last pair with key `k`.
pub open spec fn last_value(es: Seq<(Seq<char>, Seq<char>)>, k: Seq<char>) -> Option<Seq<char>>
    decreases es.len(),
{
    if es.len() == 0 {
        None
    } else if es.last().0 == k {
        Some(es.last().1)
    } else {
        last_value(es.drop_last(), k)
    }
}

/// The atlas of each material GUID prefix.
pub struct AtlasMaterialTable {
    pub entries: Vec<(String, String)>,
}

pub open spec fn table_view(t: AtlasMaterialTable) -> Seq<(Seq<char>, Seq<char>)> {
    t.entries@.map_values(|e: (String, String)| (e.0@, e.1@))
}

fn section_header_exec(t: &[char]) -> (r: Option<Option<usize>>)
    ensures
        r matches Some(Some(k)) ==> section_header(t@) == Some(Some(k as int)) && k < 5,
        r matches Some(None) ==> section_header(t@) == Some(None::<int>),
        r is None ==> section_header(t@) is None,
{
    if eq_lit(t, "normalMaterials:") {
        Some(Some(0))
    } else if eq_lit(t, "dimmedRenderQueueMaterials:") {
        Some(Some(1))
    } else if eq_lit(t, "renderQueueMaterials:") {
        Some(Some(2))
    } else if eq_lit(t, "partQueueZMaterials:") {
        Some(Some(3))
    } else if eq_lit(t, "grayMaterials:") {
        Some(Some(4))
    } else if ends_with_lit(t, ":") {
        Some(None)
    } else {
        None
    }
}

fn hex_run_exec(s: &[char], start: usize) -> (r: usize)
    requires
        start <= s@.len(),
    ensures
        r == hex_run(s@.skip(start as int)),
        start + r <= s@.len(),
{
    let mut i: usize = start;
    while i < s.len() && is_hexdigit_char(s[i])
        invariant
            start <= i <= s@.len(),
            forall|m: int| start <= m < i ==> is_ascii_hexdigit(#[trigger] s@[m]),
        decreases s.len() - i,
    {
        i = i + 1;
    }
    proof {
        lemma_hex_run(s@, start as int, i as int);
    }
    i - start
}

proof fn lemma_hex_run(s: Seq<char>, start: int, i: int)
    requires
        0 <= start <= i <= s.len(),
        forall|m: int| start <= m < i ==> is_ascii_hexdigit(#[trigger] s[m]),
        i < s.len() ==> !is_ascii_hexdigit(s[i]),
    ensures
        hex_run(s.skip(start)) == i - start,
    decreases i - start,
{
    let t = s.skip(start);
    if start == i {
        if t.len() > 0 {
            assert(t[0] == s[i]);
        }
    } else {
        assert(t[0] == s[start]);
        assert(t.drop_first() =~= s.skip(start + 1));
        lemma_hex_run(s, start + 1, i);
    }
}

/// The hex GUID after the first `guid: ` of a line.
fn extract_guid(l: &[char]) -> (r: Option<Vec<char>>)
    ensures
        r matches Some(g) ==> extract_guid_spec(l@) == Some(g@),
        r is None ==> extract_guid_spec(l@) is None,
{
    let key = str_chars("guid: ");
    match find_lit(l, "guid: ") {
        Some(p) => {
            let ll = l.len();
            assert(p + key@.len() <= ll);
            let start = p + key.len();
            let n = hex_run_exec(l, start);
            if n > 0 {
                let mut g: Vec<char> = Vec::new();
                let mut i: usize = 0;
                while i < n
                    invariant
                        ll == l@.len(),
                        start + n <= l@.len(),
                        i <= n,
                        g@ =~= l@.skip(start as int).take(i as int),
                    decreases n - i,
                {
                    g.push(l[start + i]);
                    i = i + 1;
                }
                Some(g)
            } else {
                None
            }
        },
        None => None,
    }
}

/// First eight bytes of a material GUID (`str::get(..8)`, or the whole GUID).
pub fn guid_prefix(material_guid: &[char]) -> (r: Vec<char>)
    ensures
        r@ == guid_prefix_spec(material_guid@),
{
    byte_prefix_or_all(material_guid, 8)
}

/// Builds the atlas table from the text of the `AtlasMaterials` prefab.
pub fn build_atlas_by_material_guid(text: &str) -> (r: AtlasMaterialTable)
    ensures
        table_view(r) == atlas_entries_spec(text@),
{
    let t = str_chars(text);
    let ls = split_lines(t.as_slice());
    let ghost gl = lines(text@);
    // per section, the GUIDs listed so far
    let mut lists: Vec<Vec<Vec<char>>> = Vec::new();
    let mut s: usize = 0;
    while s < 5
        invariant
            s <= 5,
            lists@.len() == s,
            forall|k: int| 0 <= k < s ==> (#[trigger] lists@[k])@.len() == 0,
        decreases 5 - s,
    {
        lists.push(Vec::new());
        s = s + 1;
    }
    let mut current: Option<usize> = None;
    let mut j: usize = 0;
    while j < ls.len()
        invariant
            vv(ls@) == gl,
            j <= ls@.len(),
            lists@.len() == 5,
            current matches Some(k) ==> k < 5,
            section_after(gl, j as nat) == (match current {
                Some(k) => Some(k as int),
                None => None,
            }),
            forall|k: int|
                0 <= k < 5 ==> vv((#[trigger] lists@[k])@) == section_guids(gl, k, j as nat),
        decreases ls.len() - j,
    {
        let tr = trim_chars(ls[j].as_slice());
        assert(tr@ == trim(gl[j as int]));
        match section_header_exec(tr.as_slice()) {
            Some(sec) => {
                current = sec;
            },
            None => {},
        }
        let ghost old_lists = lists@;
        if starts_with_lit(tr.as_slice(), "- ") {
            match current {
                Some(k) => match extract_guid(tr.as_slice()) {
                    Some(g) => {
                        let mut lk = lists[k].clone();
                        lk.push(g);
                        lists.set(k, lk);
                    },
                    None => {},
                },
                None => {},
            }
        }
        proof {
            assert forall|k: int| 0 <= k < 5 implies vv((#[trigger] lists@[k])@) == section_guids(
                gl,
                k,
                (j + 1) as nat,
            ) by {
                assert(vv(old_lists[k]@) == section_guids(gl, k, j as nat));
                if lists@[k]@.len() != old_lists[k]@.len() {
                    assert(vv(lists@[k]@) =~= vv(old_lists[k]@).push(lists@[k]@.last()@));
                } else {
                    assert(vv(lists@[k]@) =~= vv(old_lists[k]@));
                }
            }
        }
        j = j + 1;
    }
    assert(j == gl.len());
    let mut entries: Vec<(String, String)> = Vec::new();
    let mut k: usize = 0;
    while k < 5
        invariant
            k <= 5,
            j == gl.len(),
            lists@.len() == 5,
            forall|m: int|
                0 <= m < 5 ==> vv((#[trigger] lists@[m])@) == section_guids(gl, m, gl.len()),
            entries@.map_values(|e: (String, String)| (e.0@, e.1@)) == entries_upto(
                gl,
                k as nat,
            ),
        decreases 5 - k,
    {
        let gs = &lists[k];
        let ghost before = entries@.map_values(|e: (String, String)| (e.0@, e.1@));
        let ghost sec = section_entries(section_guids(gl, k as int, gl.len()));
        let mut i: usize = 0;
        while i < gs.len() && i < 3
            invariant
                i <= 3,
                i <= gs@.len(),
                vv(gs@) == section_guids(gl, k as int, gl.len()),
                sec == section_entries(section_guids(gl, k as int, gl.len())),
                entries@.map_values(|e: (String, String)| (e.0@, e.1@)) == before + sec.take(
                    i as int,
                ),
            decreases 3 - i,
        {
            let p = guid_prefix(gs[i].as_slice());
            assert(gs@[i as int]@ == vv(gs@)[i as int]);
            let ghost old_map = entries@.map_values(|e: (String, String)| (e.0@, e.1@));
            let pair = (chars_to_string(p.as_slice()), atlas_file_exec(i));
            assert((pair.0@, pair.1@) == sec[i as int]);
            entries.push(pair);
            assert(entries@.map_values(|e: (String, String)| (e.0@, e.1@)) =~= old_map.push(
                sec[i as int],
            ));
            assert(sec.take(i + 1) =~= sec.take(i as int).push(sec[i as int]));
            assert(entries@.map_values(|e: (String, String)| (e.0@, e.1@)) =~= before + sec.take(
                i + 1,
            ));
            i = i + 1;
        }
        assert(sec.take(i as int) =~= sec);
        k = k + 1;
    }
    AtlasMaterialTable { entries }
}

/// The atlas of a material: the entry for the first eight bytes of its GUID.
pub fn atlas_for_material_guid<'a>(table: &'a AtlasMaterialTable, material_guid: &str) -> (r:
    Option<&'a str>)
    ensures
        r matches Some(a) ==> last_value(table_view(*table), guid_prefix_spec(material_guid@))
            == Some(a@),
        r is None ==> last_value(table_view(*table), guid_prefix_spec(material_guid@)) is None,
{
    let g = str_chars(material_guid);
    let key = guid_prefix(g.as_slice());
    let ghost tv = table_view(*table);
    let mut i: usize = table.entries.len();
    assert(tv.take(i as int) =~= tv);
    while i > 0
        invariant
            i <= table.entries@.len(),
            tv == table_view(*table),
            key@ == guid_prefix_spec(material_guid@),
            last_value(tv, key@) == last_value(tv.take(i as int), key@),
        decreases i,
    {
        let e = &table.entries[i - 1];
        let ek = str_chars(e.0.as_str());
        assert(tv.take(i as int).drop_last() =~= tv.take(i - 1));
        assert(tv[i - 1] == (e.0@, e.1@));
        if chars_eq(ek.as_slice(), key.as_slice()) {
            assert(tv.take(i as int).last() == tv[i - 1]);
            assert(last_value(tv.take(i as int), key@) == Some(e.1@));
            let a = e.1.as_str();
            assert(a@ == e.1@);
            return Some(a);
        }
        i = i - 1;
    }
    None
}

} // verus!
