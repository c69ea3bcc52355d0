//! Part icon identities: the part type and variant a part set prefab
//! stands for, the key a part's icon is stored under and its lookup with
//! the default variant as fallback, and the fixed in-game atlases of the
//! part materials.

use vstd::prelude::*;
use crate::data::assets::theme::{flag_get, flag_index, flags_view, PrefabTable};
use crate::data::bg_prefab::docs_of;
use crate::data::level_db::{doc_header_spec, parse_doc_header};
use crate::data::sprite_db::{default_custom_part_index, variant_spec};
use crate::number::{i64_to_string, int_to_string_spec, parse_i64, parse_i64_spec};
use crate::text::{
    chars_eq, eq_lit, ends_with, ends_with_lit, lines, split_lines, split_on, split_on_lit,
    starts_with, starts_with_lit, str_chars, strip_prefix, strip_prefix_lit, trim, trim_chars, vv,
};

verus! {

// ── Atlases ──────────────────────────────────────────

/// The in-game atlas of a part material, by the first eight characters of
/// its GUID.
pub open spec fn material_atlas_spec(prefix: Seq<char>) -> Option<&'static str> {
    if prefix == "ce5a9931"@ || prefix == "d645821c"@ || prefix == "125eb5b4"@ || prefix
        == "0e790fab"@ || prefix == "353dd850"@ {
        Some("IngameAtlas.png")
    } else if prefix == "211b2b9c"@ || prefix == "aca6a4c6"@ || prefix == "765e60c2"@ || prefix
        == "4ab535f3"@ || prefix == "4eeb62bc"@ {
        Some("IngameAtlas2.png")
    } else if prefix == "2a21c011"@ || prefix == "ad767d84"@ || prefix == "7192b13e"@ || prefix
        == "a6f51d97"@ || prefix == "7975d66d"@ {
        Some("IngameAtlas3.png")
    } else {
        None
    }
}

/// The atlas of a part material GUID (its first eight bytes, or the
/// whole GUID when shorter).
pub fn atlas_for_material_guid(material_guid: &str) -> (r: Option<&'static str>)
    ensures
        r == material_atlas_spec(
            crate::data::assets::atlas_materials::guid_prefix_spec(material_guid@),
        ),
{
    let g = str_chars(material_guid);
    let p = crate::data::assets::atlas_materials::guid_prefix(g.as_slice());
    let s = p.as_slice();
    if eq_lit(s, "ce5a9931") || eq_lit(s, "d645821c") || eq_lit(s, "125eb5b4") || eq_lit(
        s,
        "0e790fab",
    ) || eq_lit(s, "353dd850") {
        Some("IngameAtlas.png")
    } else if eq_lit(s, "211b2b9c") || eq_lit(s, "aca6a4c6") || eq_lit(s, "765e60c2") || eq_lit(
        s,
        "4ab535f3",
    ) || eq_lit(s, "4eeb62bc") {
        Some("IngameAtlas2.png")
    } else if eq_lit(s, "2a21c011") || eq_lit(s, "ad767d84") || eq_lit(s, "7192b13e") || eq_lit(
        s,
        "a6f51d97",
    ) || eq_lit(s, "7975d66d") {
        Some("IngameAtlas3.png")
    } else {
        None
    }
}

// ── Part identity ────────────────────────────────────

/// `str::parse::<i32>`.
pub open spec fn parse_i32_spec(s: Seq<char>) -> Option<int> {
    match parse_i64_spec(s) {
        Some(v) => if i32::MIN <= v <= i32::MAX {
            Some(v)
        } else {
            None
        },
        None => None,
    }
}

fn parse_i32(s: &[char]) -> (r: Option<i32>)
    ensures
        match r {
            Some(v) => parse_i32_spec(s@) == Some(v as int),
            None => parse_i32_spec(s@) is None,
        },
{
    match parse_i64(s) {
        Some(v) => if i32::MIN as i64 <= v && v <= i32::MAX as i64 {
            Some(v as i32)
        } else {
            None
        },
        None => None,
    }
}

pub open spec fn opt_int(o: Option<i32>) -> Option<int> {
    match o {
        Some(v) => Some(v as int),
        None => None,
    }
}

/// Scan of a behaviour's lines: its last `m_partType:` and
/// `customPartIndex:` values (an unreadable value counts as none).
pub open spec fn ids_step(st: (Option<int>, Option<int>), l: Seq<char>) -> (Option<int>, Option<int>) {
    let t = trim(l);
    match strip_prefix(t, "m_partType:"@) {
        Some(v) => (parse_i32_spec(trim(v)), st.1),
        None => match strip_prefix(t, "customPartIndex:"@) {
            Some(v) => (st.0, parse_i32_spec(trim(v))),
            None => st,
        },
    }
}

pub open spec fn ids_lines(st: (Option<int>, Option<int>), ls: Seq<Seq<char>>) -> (Option<int>, Option<int>)
    decreases ls.len(),
{
    if ls.len() == 0 {
        st
    } else {
        ids_step(ids_lines(st, ls.drop_last()), ls.last())
    }
}

/// The behaviour documents (class 114) of a prefab carry its part type and
/// custom part index; a later one replaces an earlier one.
pub open spec fn ids_docs(docs: Seq<Seq<char>>) -> (Option<int>, Option<int>)
    decreases docs.len(),
{
    if docs.len() == 0 {
        (None, None)
    } else {
        let st = ids_docs(docs.drop_last());
        let d = docs.last();
        if lines(d).len() > 0 && (match doc_header_spec(trim(lines(d)[0])) {
            Some((c, _)) => c == 114,
            None => false,
        }) {
            ids_lines(st, lines(d))
        } else {
            st
        }
    }
}

/// The part type and custom part index a prefab's behaviours declare.
pub fn parse_part_ids(text: &str) -> (r: (Option<i32>, Option<i32>))
    ensures
        (opt_int(r.0), opt_int(r.1)) == ids_docs(docs_of(text@)),
{
    proof {
        reveal_strlit("--- ");
    }
    let t = str_chars(text);
    let parts = split_on_lit(t.as_slice(), "--- ");
    let ghost docs = docs_of(text@);
    let mut part_type: Option<i32> = None;
    let mut custom: Option<i32> = None;
    let mut i: usize = 1;
    while i < parts.len()
        invariant
            vv(parts@) == split_on(text@, "--- "@),
            docs == docs_of(text@),
            1 <= i,
            parts@.len() > 0 ==> i <= parts@.len(),
            (opt_int(part_type), opt_int(custom)) == ids_docs(docs.take(i - 1)),
        decreases parts.len() - i,
    {
        let doc = parts[i].as_slice();
        assert(docs[i - 1] == parts@[i as int]@);
        assert(docs.take(i as int).drop_last() =~= docs.take(i - 1));
        assert(docs.take(i as int).last() == docs[i - 1]);
        let ls = split_lines(doc);
        let is_behaviour = if ls.len() > 0 {
            let h = trim_chars(ls[0].as_slice());
            match parse_doc_header(h.as_slice()) {
                Some((c, _)) => c == 114,
                None => false,
            }
        } else {
            false
        };
        if is_behaviour {
            let ghost st0 = (opt_int(part_type), opt_int(custom));
            let mut k: usize = 0;
            assert(vv(ls@).take(0) =~= Seq::<Seq<char>>::empty());
            while k < ls.len()
                invariant
                    vv(ls@) == lines(doc@),
                    k <= ls@.len(),
                    (opt_int(part_type), opt_int(custom)) == ids_lines(st0, vv(ls@).take(k as int)),
                decreases ls.len() - k,
            {
                assert(vv(ls@).take(k + 1).drop_last() =~= vv(ls@).take(k as int));
                let tl = trim_chars(ls[k].as_slice());
                match strip_prefix_lit(tl.as_slice(), "m_partType:") {
                    Some(v) => {
                        let tv = trim_chars(v.as_slice());
                        part_type = parse_i32(tv.as_slice());
                    },
                    None => match strip_prefix_lit(tl.as_slice(), "customPartIndex:") {
                        Some(v) => {
                            let tv = trim_chars(v.as_slice());
                            custom = parse_i32(tv.as_slice());
                        },
                        None => {},
                    },
                }
                k = k + 1;
            }
            assert(vv(ls@).take(k as int) =~= vv(ls@));
        }
        i = i + 1;
    }
    proof {
        if parts@.len() > 0 {
            assert(docs.take(i - 1) =~= docs);
        } else {
            assert(docs =~= Seq::<Seq<char>>::empty());
        }
    }
    (part_type, custom)
}

/// A part set prefab's identity: a `Part_…_SET.prefab` file whose
/// behaviours declare a part type; its variant is the declared custom part
/// index, else the one its name gives.
pub open spec fn part_variant_spec(filename: Seq<char>, text: Seq<char>) -> Option<(int, int)> {
    if starts_with(filename, "Part_"@) && ends_with(filename, "_SET.prefab"@) {
        match variant_spec(filename) {
            Some(v) => match ids_docs(docs_of(text)) {
                (Some(t), Some(c)) => Some((t, c)),
                (Some(t), None) => Some((t, v - 1)),
                _ => None,
            },
            None => None,
        }
    } else {
        None
    }
}

/// The part type and custom part index a part set prefab stands for.
pub fn part_variant(filename: &str, text: &str) -> (r: Option<(i32, i32)>)
    requires
        variant_spec(filename@) != Some(i32::MIN as int),
    ensures
        match r {
            Some((t, c)) => part_variant_spec(filename@, text@) == Some((t as int, c as int)),
            None => part_variant_spec(filename@, text@) is None,
        },
{
    let f = str_chars(filename);
    if !(starts_with_lit(f.as_slice(), "Part_") && ends_with_lit(f.as_slice(), "_SET.prefab")) {
        return None;
    }
    let default_index = match default_custom_part_index(filename) {
        Some(d) => d,
        None => {
            return None;
        },
    };
    match parse_part_ids(text) {
        (Some(t), Some(c)) => Some((t, c)),
        (Some(t), None) => Some((t, default_index)),
        _ => None,
    }
}

// ── Icon keys ────────────────────────────────────────

/// The key of a part's icon: `<part type>.<custom part index>`.
pub open spec fn part_key_spec(part_type: int, custom_part_index: int) -> Seq<char> {
    int_to_string_spec(part_type) + "."@ + int_to_string_spec(custom_part_index)
}

pub fn part_key(part_type: i32, custom_part_index: i32) -> (r: String)
    ensures
        r@ == part_key_spec(part_type as int, custom_part_index as int),
{
    let mut out = i64_to_string(part_type as i64);
    out.push('.');
    let c = i64_to_string(custom_part_index as i64);
    let ghost start = out@;
    let mut k: usize = 0;
    while k < c.len()
        invariant
            k <= c@.len(),
            out@ == start + c@.take(k as int),
        decreases c.len() - k,
    {
        out.push(c[k]);
        k = k + 1;
        assert(out@ =~= start + c@.take(k as int));
    }
    proof {
        reveal_strlit(".");
        assert(c@.take(k as int) =~= c@);
        assert(out@ =~= part_key_spec(part_type as int, custom_part_index as int));
    }
    chars_to_string_owned(out)
}

fn chars_to_string_owned(v: Vec<char>) -> (r: String)
    ensures
        r@ == v@,
{
    crate::text::chars_to_string(v.as_slice())
}

/// The icon of a part: that of its variant, else that of its default
/// variant `0`. A later entry for a key replaces an earlier one.
pub open spec fn part_info_spec<V>(
    db: Seq<(Seq<char>, V)>,
    part_type: int,
    custom_part_index: int,
) -> Option<V> {
    match flag_get(db, part_key_spec(part_type, custom_part_index)) {
        Some(v) => Some(v),
        None => flag_get(db, part_key_spec(part_type, 0)),
    }
}

/// Looks up the icon of a part, falling back to its default variant.
pub fn get_part_info<'a, V>(db: &'a PrefabTable<V>, part_type: i32, custom_part_index: i32) -> (r:
    Option<&'a V>)
    ensures
        match r {
            Some(v) => part_info_spec(flags_view(*db), part_type as int, custom_part_index as int)
                == Some(*v),
            None => part_info_spec(flags_view(*db), part_type as int, custom_part_index as int)
                is None,
        },
{
    let key = part_key(part_type, custom_part_index);
    let kc = str_chars(key.as_str());
    match flag_index(db, kc.as_slice()) {
        Some(i) => Some(&db.entries[i].1),
        None => {
            let fallback = part_key(part_type, 0);
            let fc = str_chars(fallback.as_str());
            match flag_index(db, fc.as_slice()) {
                Some(i) => Some(&db.entries[i].1),
                None => None,
            }
        },
    }
}


/// The atlas of each part material GUID prefix, as the game's materials give it.
pub proof fn lemma_part_material_atlases()
    ensures
        material_atlas_spec("ce5a9931"@) == Some("IngameAtlas.png"),
        material_atlas_spec("d645821c"@) == Some("IngameAtlas.png"),
        material_atlas_spec("125eb5b4"@) == Some("IngameAtlas.png"),
        material_atlas_spec("0e790fab"@) == Some("IngameAtlas.png"),
        material_atlas_spec("353dd850"@) == Some("IngameAtlas.png"),
        material_atlas_spec("211b2b9c"@) == Some("IngameAtlas2.png"),
        material_atlas_spec("aca6a4c6"@) == Some("IngameAtlas2.png"),
        material_atlas_spec("765e60c2"@) == Some("IngameAtlas2.png"),
        material_atlas_spec("4ab535f3"@) == Some("IngameAtlas2.png"),
        material_atlas_spec("4eeb62bc"@) == Some("IngameAtlas2.png"),
        material_atlas_spec("2a21c011"@) == Some("IngameAtlas3.png"),
        material_atlas_spec("ad767d84"@) == Some("IngameAtlas3.png"),
        material_atlas_spec("7192b13e"@) == Some("IngameAtlas3.png"),
        material_atlas_spec("a6f51d97"@) == Some("IngameAtlas3.png"),
        material_atlas_spec("7975d66d"@) == Some("IngameAtlas3.png"),
{
    reveal_strlit("0e790fab");
    reveal_strlit("125eb5b4");
    reveal_strlit("211b2b9c");
    reveal_strlit("2a21c011");
    reveal_strlit("353dd850");
    reveal_strlit("4ab535f3");
    reveal_strlit("4eeb62bc");
    reveal_strlit("7192b13e");
    reveal_strlit("765e60c2");
    reveal_strlit("7975d66d");
    reveal_strlit("a6f51d97");
    reveal_strlit("aca6a4c6");
    reveal_strlit("ad767d84");
    reveal_strlit("ce5a9931");
    reveal_strlit("d645821c");
    assert(material_atlas_spec("ce5a9931"@) == Some("IngameAtlas.png")) by {
    }
    assert(material_atlas_spec("d645821c"@) == Some("IngameAtlas.png")) by {
        assert("ce5a9931"@[0] != "d645821c"@[0]);
    }
    assert(material_atlas_spec("125eb5b4"@) == Some("IngameAtlas.png")) by {
        assert("ce5a9931"@[0] != "125eb5b4"@[0]);
        assert("d645821c"@[0] != "125eb5b4"@[0]);
    }
    assert(material_atlas_spec("0e790fab"@) == Some("IngameAtlas.png")) by {
        assert("ce5a9931"@[0] != "0e790fab"@[0]);
        assert("d645821c"@[0] != "0e790fab"@[0]);
        assert("125eb5b4"@[0] != "0e790fab"@[0]);
    }
    assert(material_atlas_spec("353dd850"@) == Some("IngameAtlas.png")) by {
        assert("ce5a9931"@[0] != "353dd850"@[0]);
        assert("d645821c"@[0] != "353dd850"@[0]);
        assert("125eb5b4"@[0] != "353dd850"@[0]);
        assert("0e790fab"@[0] != "353dd850"@[0]);
    }
    assert(material_atlas_spec("211b2b9c"@) == Some("IngameAtlas2.png")) by {
        assert("ce5a9931"@[0] != "211b2b9c"@[0]);
        assert("d645821c"@[0] != "211b2b9c"@[0]);
        assert("125eb5b4"@[0] != "211b2b9c"@[0]);
        assert("0e790fab"@[0] != "211b2b9c"@[0]);
        assert("353dd850"@[0] != "211b2b9c"@[0]);
    }
    assert(material_atlas_spec("aca6a4c6"@) == Some("IngameAtlas2.png")) by {
        assert("ce5a9931"@[0] != "aca6a4c6"@[0]);
        assert("d645821c"@[0] != "aca6a4c6"@[0]);
        assert("125eb5b4"@[0] != "aca6a4c6"@[0]);
        assert("0e790fab"@[0] != "aca6a4c6"@[0]);
        assert("353dd850"@[0] != "aca6a4c6"@[0]);
        assert("211b2b9c"@[0] != "aca6a4c6"@[0]);
    }
    assert(material_atlas_spec("765e60c2"@) == Some("IngameAtlas2.png")) by {
        assert("ce5a9931"@[0] != "765e60c2"@[0]);
        assert("d645821c"@[0] != "765e60c2"@[0]);
        assert("125eb5b4"@[0] != "765e60c2"@[0]);
        assert("0e790fab"@[0] != "765e60c2"@[0]);
        assert("353dd850"@[0] != "765e60c2"@[0]);
        assert("211b2b9c"@[0] != "765e60c2"@[0]);
        assert("aca6a4c6"@[0] != "765e60c2"@[0]);
    }
    assert(material_atlas_spec("4ab535f3"@) == Some("IngameAtlas2.png")) by {
        assert("ce5a9931"@[0] != "4ab535f3"@[0]);
        assert("d645821c"@[0] != "4ab535f3"@[0]);
        assert("125eb5b4"@[0] != "4ab535f3"@[0]);
        assert("0e790fab"@[0] != "4ab535f3"@[0]);
        assert("353dd850"@[0] != "4ab535f3"@[0]);
        assert("211b2b9c"@[0] != "4ab535f3"@[0]);
        assert("aca6a4c6"@[0] != "4ab535f3"@[0]);
        assert("765e60c2"@[0] != "4ab535f3"@[0]);
    }
    assert(material_atlas_spec("4eeb62bc"@) == Some("IngameAtlas2.png")) by {
        assert("ce5a9931"@[0] != "4eeb62bc"@[0]);
        assert("d645821c"@[0] != "4eeb62bc"@[0]);
        assert("125eb5b4"@[0] != "4eeb62bc"@[0]);
        assert("0e790fab"@[0] != "4eeb62bc"@[0]);
        assert("353dd850"@[0] != "4eeb62bc"@[0]);
        assert("211b2b9c"@[0] != "4eeb62bc"@[0]);
        assert("aca6a4c6"@[0] != "4eeb62bc"@[0]);
        assert("765e60c2"@[0] != "4eeb62bc"@[0]);
        assert("4ab535f3"@[1] != "4eeb62bc"@[1]);
    }
    assert(material_atlas_spec("2a21c011"@) == Some("IngameAtlas3.png")) by {
        assert("ce5a9931"@[0] != "2a21c011"@[0]);
        assert("d645821c"@[0] != "2a21c011"@[0]);
        assert("125eb5b4"@[0] != "2a21c011"@[0]);
        assert("0e790fab"@[0] != "2a21c011"@[0]);
        assert("353dd850"@[0] != "2a21c011"@[0]);
        assert("211b2b9c"@[1] != "2a21c011"@[1]);
        assert("aca6a4c6"@[0] != "2a21c011"@[0]);
        assert("765e60c2"@[0] != "2a21c011"@[0]);
        assert("4ab535f3"@[0] != "2a21c011"@[0]);
        assert("4eeb62bc"@[0] != "2a21c011"@[0]);
    }
    assert(material_atlas_spec("ad767d84"@) == Some("IngameAtlas3.png")) by {
        assert("ce5a9931"@[0] != "ad767d84"@[0]);
        assert("d645821c"@[0] != "ad767d84"@[0]);
        assert("125eb5b4"@[0] != "ad767d84"@[0]);
        assert("0e790fab"@[0] != "ad767d84"@[0]);
        assert("353dd850"@[0] != "ad767d84"@[0]);
        assert("211b2b9c"@[0] != "ad767d84"@[0]);
        assert("aca6a4c6"@[1] != "ad767d84"@[1]);
        assert("765e60c2"@[0] != "ad767d84"@[0]);
        assert("4ab535f3"@[0] != "ad767d84"@[0]);
        assert("4eeb62bc"@[0] != "ad767d84"@[0]);
        assert("2a21c011"@[0] != "ad767d84"@[0]);
    }
    assert(material_atlas_spec("7192b13e"@) == Some("IngameAtlas3.png")) by {
        assert("ce5a9931"@[0] != "7192b13e"@[0]);
        assert("d645821c"@[0] != "7192b13e"@[0]);
        assert("125eb5b4"@[0] != "7192b13e"@[0]);
        assert("0e790fab"@[0] != "7192b13e"@[0]);
        assert("353dd850"@[0] != "7192b13e"@[0]);
        assert("211b2b9c"@[0] != "7192b13e"@[0]);
        assert("aca6a4c6"@[0] != "7192b13e"@[0]);
        assert("765e60c2"@[1] != "7192b13e"@[1]);
        assert("4ab535f3"@[0] != "7192b13e"@[0]);
        assert("4eeb62bc"@[0] != "7192b13e"@[0]);
        assert("2a21c011"@[0] != "7192b13e"@[0]);
        assert("ad767d84"@[0] != "7192b13e"@[0]);
    }
    assert(material_atlas_spec("a6f51d97"@) == Some("IngameAtlas3.png")) by {
        assert("ce5a9931"@[0] != "a6f51d97"@[0]);
        assert("d645821c"@[0] != "a6f51d97"@[0]);
        assert("125eb5b4"@[0] != "a6f51d97"@[0]);
        assert("0e790fab"@[0] != "a6f51d97"@[0]);
        assert("353dd850"@[0] != "a6f51d97"@[0]);
        assert("211b2b9c"@[0] != "a6f51d97"@[0]);
        assert("aca6a4c6"@[1] != "a6f51d97"@[1]);
        assert("765e60c2"@[0] != "a6f51d97"@[0]);
        assert("4ab535f3"@[0] != "a6f51d97"@[0]);
        assert("4eeb62bc"@[0] != "a6f51d97"@[0]);
        assert("2a21c011"@[0] != "a6f51d97"@[0]);
        assert("ad767d84"@[1] != "a6f51d97"@[1]);
        assert("7192b13e"@[0] != "a6f51d97"@[0]);
    }
    assert(material_atlas_spec("7975d66d"@) == Some("IngameAtlas3.png")) by {
        assert("ce5a9931"@[0] != "7975d66d"@[0]);
        assert("d645821c"@[0] != "7975d66d"@[0]);
        assert("125eb5b4"@[0] != "7975d66d"@[0]);
        assert("0e790fab"@[0] != "7975d66d"@[0]);
        assert("353dd850"@[0] != "7975d66d"@[0]);
        assert("211b2b9c"@[0] != "7975d66d"@[0]);
        assert("aca6a4c6"@[0] != "7975d66d"@[0]);
        assert("765e60c2"@[1] != "7975d66d"@[1]);
        assert("4ab535f3"@[0] != "7975d66d"@[0]);
        assert("4eeb62bc"@[0] != "7975d66d"@[0]);
        assert("2a21c011"@[0] != "7975d66d"@[0]);
        assert("ad767d84"@[0] != "7975d66d"@[0]);
        assert("7192b13e"@[1] != "7975d66d"@[1]);
        assert("a6f51d97"@[0] != "7975d66d"@[0]);
    }
}

} // verus!
