//! Sprite database rules: the runtime atlases, the atlas a runtime material
//! resolves to when its sprites agree on one, the representative UI child
//! names, and the prefab YAML scanning for game objects, transforms and
//! renderers.

use vstd::prelude::*;
use crate::data::assets::atlas_materials::hex_run;
use crate::data::assets::theme::{flags_view, sprite_asset_index, sprite_lookup_spec, PrefabTable};
use crate::number::{parse_i64, parse_i64_spec};
use crate::text::{
    chars_eq, chars_to_string, contains, contains_lit, copy_range, eq_lit, find, find_lit,
    is_ascii_alphanumeric, is_ascii_digit, is_digit_char, is_hexdigit_char, lines, lower_char,
    lower_char_exec, split_lines, starts_with, starts_with_lit, str_chars, strings_view, strip_prefix,
    strip_prefix_lit, trim, trim_chars, trim_start, trim_start_chars, vv, is_ascii_hexdigit,
    first_some, lemma_first_some_end, lemma_first_some_step, rfind, rfind_lit, strip_suffix,
    strip_suffix_lit,
};

verus! {

// ── Runtime atlases ──────────────────────────────────

/// The atlases runtime sprites are drawn from.
pub open spec fn runtime_atlas_names() -> Seq<Seq<char>> {
    seq![
        "IngameAtlas.png"@,
        "IngameAtlas2.png"@,
        "IngameAtlas3.png"@,
        "Ingame_Characters_Sheet_01.png"@,
        "Ingame_Sheet_04.png"@,
        "MenuAtlas.png"@,
        "MenuAtlas2.png"@,
    ]
}

pub fn is_runtime_atlas_filename(texture_name: &str) -> (r: bool)
    ensures
        r == runtime_atlas_names().contains(texture_name@),
{
    let t = str_chars(texture_name);
    let names: [&str; 7] = [
        "IngameAtlas.png",
        "IngameAtlas2.png",
        "IngameAtlas3.png",
        "Ingame_Characters_Sheet_01.png",
        "Ingame_Sheet_04.png",
        "MenuAtlas.png",
        "MenuAtlas2.png",
    ];
    let ghost ns = runtime_atlas_names();
    assert(forall|k: int| 0 <= k < 7 ==> (#[trigger] names@[k])@ == ns[k]);
    let mut i: usize = 0;
    while i < 7
        invariant
            i <= 7,
            ns == runtime_atlas_names(),
            t@ == texture_name@,
            forall|k: int| 0 <= k < 7 ==> (#[trigger] names@[k])@ == ns[k],
            forall|k: int| 0 <= k < i ==> ns[k] != t@,
        decreases 7 - i,
    {
        if eq_lit(t.as_slice(), names[i]) {
            assert(ns[i as int] == t@);
            return true;
        }
        i = i + 1;
    }
    false
}

/// A UI child name reduced to its ASCII letters and digits, lowercased.
pub open spec fn normalize_runtime_name_spec(s: Seq<char>) -> Seq<char>
    decreases s.len(),
{
    if s.len() == 0 {
        Seq::empty()
    } else {
        let prev = normalize_runtime_name_spec(s.drop_last());
        if is_ascii_alphanumeric(s.last()) {
            prev.push(lower_char(s.last()))
        } else {
            prev
        }
    }
}

pub fn normalize_runtime_sprite_name(name: &str) -> (r: Vec<char>)
    ensures
        r@ == normalize_runtime_name_spec(name@),
{
    let s = str_chars(name);
    let mut out: Vec<char> = Vec::new();
    let mut k: usize = 0;
    while k < s.len()
        invariant
            s@ == name@,
            k <= s@.len(),
            out@ == normalize_runtime_name_spec(s@.take(k as int)),
        decreases s.len() - k,
    {
        let c = s[k];
        assert(s@.take(k + 1).drop_last() =~= s@.take(k as int));
        let u = c as u32;
        if ('0' as u32 <= u && u <= '9' as u32) || ('A' as u32 <= u && u <= 'Z' as u32) || ('a'
            as u32 <= u && u <= 'z' as u32) {
            out.push(lower_char_exec(c));
        }
        k = k + 1;
    }
    assert(s@.take(k as int) =~= s@);
    out
}

/// The child names that stand for a UI prefab in previews.
pub open spec fn is_representative_spec(name: Seq<char>) -> bool {
    let n = normalize_runtime_name_spec(name);
    n == "closebutton"@ || n == "backbutton"@ || n == "loading"@ || n == "buybutton"@ || n
        == "claimbutton"@ || n == "watchad"@ || n == "openpopupbutton"@ || n == "trackicon"@ || n
        == "levelicon"@ || n == "softcurrencyicon"@ || n == "okbutton"@ || n == "infobutton"@
}

pub fn is_representative_runtime_sprite_name(game_object_name: &str) -> (r: bool)
    ensures
        r == is_representative_spec(game_object_name@),
{
    let n = normalize_runtime_sprite_name(game_object_name);
    let n = n.as_slice();
    eq_lit(n, "closebutton") || eq_lit(n, "backbutton") || eq_lit(n, "loading") || eq_lit(
        n,
        "buybutton",
    ) || eq_lit(n, "claimbutton") || eq_lit(n, "watchad") || eq_lit(n, "openpopupbutton")
        || eq_lit(n, "trackicon") || eq_lit(n, "levelicon") || eq_lit(n, "softcurrencyicon")
        || eq_lit(n, "okbutton") || eq_lit(n, "infobutton")
}

/// The (material id, atlas) pairs seen on active, enabled runtime sprites.
pub struct RuntimeAtlasObservations {
    pub pairs: Vec<(String, String)>,
}

pub open spec fn observations_view(o: RuntimeAtlasObservations) -> Seq<(Seq<char>, Seq<char>)> {
    o.pairs@.map_values(|p: (String, String)| (p.0@, p.1@))
}

impl RuntimeAtlasObservations {
    pub fn new() -> (r: RuntimeAtlasObservations)
        ensures
            observations_view(r) == Seq::<(Seq<char>, Seq<char>)>::empty(),
    {
        let r = RuntimeAtlasObservations { pairs: Vec::new() };
        assert(observations_view(r) =~= Seq::<(Seq<char>, Seq<char>)>::empty());
        r
    }

    /// Records that a sprite of `material_id` is drawn from `texture_name`;
    /// only runtime atlases count.
    pub fn record(&mut self, material_id: &str, texture_name: &str)
        ensures
            observations_view(*final(self)) == (if runtime_atlas_names().contains(texture_name@) {
                observations_view(*old(self)).push((material_id@, texture_name@))
            } else {
                observations_view(*old(self))
            }),
    {
        if is_runtime_atlas_filename(texture_name) {
            let ghost before = observations_view(*self);
            self.pairs.push((material_id.to_string(), texture_name.to_string()));
            assert(observations_view(*self) =~= before.push((material_id@, texture_name@)));
        }
    }
}

/// The atlas of a material id when all its sprites agree on exactly one.
pub open spec fn unique_atlas_spec(obs: Seq<(Seq<char>, Seq<char>)>, id: Seq<char>) -> Option<Seq<char>> {
    if exists|i: int| 0 <= i < obs.len() && obs[i].0 == id {
        let i = choose|i: int| 0 <= i < obs.len() && obs[i].0 == id;
        if forall|j: int| 0 <= j < obs.len() && obs[j].0 == id ==> obs[j].1 == obs[i].1 {
            Some(obs[i].1)
        } else {
            None
        }
    } else {
        None
    }
}

pub fn runtime_unique_atlas_for_material_id(obs: &RuntimeAtlasObservations, material_id: &str) -> (r:
    Option<String>)
    ensures
        match r {
            Some(a) => unique_atlas_spec(observations_view(*obs), material_id@) == Some(a@),
            None => unique_atlas_spec(observations_view(*obs), material_id@) is None,
        },
{
    let ghost ov = observations_view(*obs);
    let m = str_chars(material_id);
    let mut found: Option<Vec<char>> = None;
    let mut first: usize = 0;
    let mut i: usize = 0;
    while i < obs.pairs.len()
        invariant
            ov == observations_view(*obs),
            m@ == material_id@,
            i <= ov.len(),
            found is None ==> forall|k: int| 0 <= k < i ==> ov[k].0 != m@,
            found matches Some(a) ==> (first < i && ov[first as int].0 == m@ && ov[first as int].1
                == a@ && forall|k: int| 0 <= k < i && ov[k].0 == m@ ==> ov[k].1 == a@),
        decreases obs.pairs.len() - i,
    {
        let p = &obs.pairs[i];
        assert(ov[i as int] == (p.0@, p.1@));
        let k = str_chars(p.0.as_str());
        if chars_eq(k.as_slice(), m.as_slice()) {
            let a = str_chars(p.1.as_str());
            match &found {
                Some(f) => {
                    if !chars_eq(a.as_slice(), f.as_slice()) {
                        proof {
                            let w = choose|w: int| 0 <= w < ov.len() && ov[w].0 == m@;
                            assert(ov[w].1 == f@ || ov[w].1 != f@);
                            // two pairs of the id disagree
                            assert(!(forall|j: int|
                                0 <= j < ov.len() && ov[j].0 == m@ ==> ov[j].1 == ov[w].1)) by {
                                if ov[w].1 == f@ {
                                    assert(ov[i as int].0 == m@ && ov[i as int].1 != ov[w].1);
                                } else {
                                    assert(ov[first as int].0 == m@ && ov[first as int].1
                                        != ov[w].1);
                                }
                            }
                        }
                        return None;
                    }
                },
                None => {
                    found = Some(a);
                    first = i;
                },
            }
        }
        i = i + 1;
    }
    match found {
        Some(f) => {
            proof {
                let w = choose|w: int| 0 <= w < ov.len() && ov[w].0 == m@;
                assert(ov[w].1 == f@);
            }
            Some(chars_to_string(f.as_slice()))
        },
        None => None,
    }
}

// ── Prefab YAML ──────────────────────────────────────

/// Length of the run of ASCII digits that `s` starts with.
pub open spec fn digit_run(s: Seq<char>) -> nat
    decreases s.len(),
{
    if s.len() > 0 && is_ascii_digit(s[0]) {
        1 + digit_run(s.drop_first())
    } else {
        0
    }
}

/// The run after the first `key` of a text (blanks skipped) of hex digits
/// (`hex`) or of decimal digits, when there is one.
pub open spec fn value_after_spec(text: Seq<char>, key: Seq<char>, hex: bool) -> Option<Seq<char>> {
    match find(text, key) {
        Some(p) => {
            let rest = trim_start(text.skip(p + key.len()));
            let n = if hex {
                hex_run(rest)
            } else {
                digit_run(rest)
            };
            let v = rest.take(n as int);
            if v.len() > 0 {
                Some(v)
            } else {
                None
            }
        },
        None => None,
    }
}

/// The digits after the first `fileID:` of a text.
pub open spec fn file_id_spec(text: Seq<char>) -> Option<Seq<char>> {
    value_after_spec(text, "fileID:"@, false)
}

/// The hex digits after the first `guid:` of a text.
pub open spec fn guid_spec(text: Seq<char>) -> Option<Seq<char>> {
    value_after_spec(text, "guid:"@, true)
}

fn run_char(c: char, hex: bool) -> (r: bool)
    ensures
        r == (if hex {
            is_ascii_hexdigit(c)
        } else {
            is_ascii_digit(c)
        }),
{
    if hex {
        is_hexdigit_char(c)
    } else {
        is_digit_char(c)
    }
}

fn run_len(s: &[char], hex: bool) -> (r: usize)
    ensures
        r == (if hex {
            hex_run(s@)
        } else {
            digit_run(s@)
        }),
        r <= s@.len(),
{
    let mut i: usize = 0;
    while i < s.len() && run_char(s[i], hex)
        invariant
            i <= s@.len(),
            forall|m: int|
                0 <= m < i ==> (if hex {
                    is_ascii_hexdigit(#[trigger] s@[m])
                } else {
                    is_ascii_digit(s@[m])
                }),
        decreases s.len() - i,
    {
        i = i + 1;
    }
    proof {
        lemma_run(s@, i as int, hex);
    }
    i
}

proof fn lemma_run(s: Seq<char>, i: int, hex: bool)
    requires
        0 <= i <= s.len(),
        forall|m: int|
            0 <= m < i ==> (if hex {
                is_ascii_hexdigit(#[trigger] s[m])
            } else {
                is_ascii_digit(s[m])
            }),
        i < s.len() ==> !(if hex {
            is_ascii_hexdigit(s[i])
        } else {
            is_ascii_digit(s[i])
        }),
    ensures
        (if hex {
            hex_run(s)
        } else {
            digit_run(s)
        }) == i,
    decreases i,
{
    if i > 0 {
        let t = s.drop_first();
        assert forall|m: int|
            0 <= m < i - 1 implies (if hex {
                is_ascii_hexdigit(#[trigger] t[m])
            } else {
                is_ascii_digit(t[m])
            }) by {
            assert(t[m] == s[m + 1]);
        }
        if i < s.len() {
            assert(t[i - 1] == s[i]);
        }
        assert(if hex { is_ascii_hexdigit(s[0]) } else { is_ascii_digit(s[0]) });
        lemma_run(t, i - 1, hex);
    } else if s.len() > 0 {
        assert(!(if hex { is_ascii_hexdigit(s[0]) } else { is_ascii_digit(s[0]) }));
    }
}

fn value_after(text: &[char], key: &str, hex: bool) -> (r: Option<Vec<char>>)
    ensures
        match r {
            Some(v) => value_after_spec(text@, key@, hex) == Some(v@),
            None => value_after_spec(text@, key@, hex) is None,
        },
{
    let k = str_chars(key);
    match find_lit(text, key) {
        Some(p) => {
            let n = text.len();
            assert(p + k@.len() <= n);
            let tail = copy_range(text, p + k.len(), n);
            assert(tail@ =~= text@.skip(p + k@.len()));
            let rest = trim_start_chars(tail.as_slice());
            let len = run_len(rest.as_slice(), hex);
            if len > 0 {
                let v = copy_range(rest.as_slice(), 0, len);
                assert(v@ =~= rest@.take(len as int));
                Some(v)
            } else {
                None
            }
        },
        None => None,
    }
}

/// The file id after `fileID:` in a text.
pub fn parse_file_id(text: &[char]) -> (r: Option<Vec<char>>)
    ensures
        match r {
            Some(v) => file_id_spec(text@) == Some(v@),
            None => file_id_spec(text@) is None,
        },
{
    value_after(text, "fileID:", false)
}

/// The GUID after `guid:` in a text.
pub fn parse_guid(text: &[char]) -> (r: Option<Vec<char>>)
    ensures
        match r {
            Some(v) => guid_spec(text@) == Some(v@),
            None => guid_spec(text@) is None,
        },
{
    value_after(text, "guid:", true)
}

/// Whether a game object document leaves the object active: its last
/// `m_IsActive:` line, when it holds anything but `0`; active without one.
pub open spec fn active_after(ls: Seq<Seq<char>>, n: nat) -> bool
    decreases n,
{
    if n == 0 {
        true
    } else {
        match strip_prefix(trim(ls[n - 1]), "m_IsActive:"@) {
            Some(v) => trim(v) != "0"@,
            None => active_after(ls, (n - 1) as nat),
        }
    }
}

pub fn parse_game_object(doc: &str) -> (r: bool)
    ensures
        r == active_after(lines(doc@), lines(doc@).len()),
{
    let d = str_chars(doc);
    let ls = split_lines(d.as_slice());
    let mut active = true;
    let mut i: usize = 0;
    while i < ls.len()
        invariant
            vv(ls@) == lines(doc@),
            i <= ls@.len(),
            active == active_after(lines(doc@), i as nat),
        decreases ls.len() - i,
    {
        let t = trim_chars(ls[i].as_slice());
        assert(t@ == trim(lines(doc@)[i as int]));
        match strip_prefix_lit(t.as_slice(), "m_IsActive:") {
            Some(v) => {
                let tv = trim_chars(v.as_slice());
                active = !eq_lit(tv.as_slice(), "0");
            },
            None => {},
        }
        i = i + 1;
    }
    active
}

/// State of the transform scan: game object id, father, children, and
/// whether the `m_Children` list is open.
pub open spec fn transform_step(
    st: (Option<Seq<char>>, Seq<char>, Seq<Seq<char>>, bool),
    t: Seq<char>,
) -> (Option<Seq<char>>, Seq<char>, Seq<Seq<char>>, bool) {
    let (go, father, children, in_children) = st;
    match strip_prefix(t, "m_GameObject:"@) {
        Some(v) => (file_id_spec(v), father, children, in_children),
        None => match strip_prefix(t, "m_Father:"@) {
            Some(v) => (
                go,
                match file_id_spec(v) {
                    Some(f) => f,
                    None => "0"@,
                },
                children,
                false,
            ),
            None => if starts_with(t, "m_Children:"@) {
                (go, father, children, !contains(t, "[]"@))
            } else if in_children {
                if starts_with(t, "-"@) {
                    match file_id_spec(t) {
                        Some(c) => (go, father, children.push(c), in_children),
                        None => st,
                    }
                } else if starts_with(t, "m_"@) {
                    (go, father, children, false)
                } else {
                    st
                }
            } else {
                st
            },
        },
    }
}

pub open spec fn transform_scan(ls: Seq<Seq<char>>, n: nat) -> (
    Option<Seq<char>>,
    Seq<char>,
    Seq<Seq<char>>,
    bool,
)
    decreases n,
{
    if n == 0 {
        (None, "0"@, Seq::empty(), false)
    } else {
        transform_step(transform_scan(ls, (n - 1) as nat), trim(ls[n - 1]))
    }
}

/// A transform: its game object, its father (`0` for none) and children.
pub struct TransformInfo {
    pub game_object_id: String,
    pub father: String,
    pub children: Vec<String>,
}

pub open spec fn transform_spec(doc: Seq<char>) -> Option<(Seq<char>, Seq<char>, Seq<Seq<char>>)> {
    let st = transform_scan(lines(doc), lines(doc).len());
    match st.0 {
        Some(go) => Some((go, st.1, st.2)),
        None => None,
    }
}

pub fn parse_transform(doc: &str) -> (r: Option<TransformInfo>)
    ensures
        match r {
            Some(t) => transform_spec(doc@) == Some(
                (t.game_object_id@, t.father@, strings_view(t.children@)),
            ),
            None => transform_spec(doc@) is None,
        },
{
    let d = str_chars(doc);
    let ls = split_lines(d.as_slice());
    let mut go: Option<Vec<char>> = None;
    let mut father: Vec<char> = str_chars("0");
    let mut children: Vec<String> = Vec::new();
    let mut in_children = false;
    let mut i: usize = 0;
    while i < ls.len()
        invariant
            vv(ls@) == lines(doc@),
            i <= ls@.len(),
            transform_scan(lines(doc@), i as nat) == (
                match go {
                    Some(g) => Some(g@),
                    None => None,
                },
                father@,
                strings_view(children@),
                in_children,
            ),
        decreases ls.len() - i,
    {
        let t = trim_chars(ls[i].as_slice());
        assert(t@ == trim(lines(doc@)[i as int]));
        let ghost before = strings_view(children@);
        match strip_prefix_lit(t.as_slice(), "m_GameObject:") {
            Some(v) => {
                go = parse_file_id(v.as_slice());
            },
            None => match strip_prefix_lit(t.as_slice(), "m_Father:") {
                Some(v) => {
                    father = match parse_file_id(v.as_slice()) {
                        Some(f) => f,
                        None => str_chars("0"),
                    };
                    in_children = false;
                },
                None => {
                    if starts_with_lit(t.as_slice(), "m_Children:") {
                        in_children = !contains_lit(t.as_slice(), "[]");
                    } else if in_children {
                        if starts_with_lit(t.as_slice(), "-") {
                            match parse_file_id(t.as_slice()) {
                                Some(c) => {
                                    children.push(chars_to_string(c.as_slice()));
                                    assert(strings_view(children@) =~= before.push(c@));
                                },
                                None => {},
                            }
                        } else if starts_with_lit(t.as_slice(), "m_") {
                            in_children = false;
                        }
                    }
                },
            },
        }
        i = i + 1;
    }
    match go {
        Some(g) => Some(
            TransformInfo {
                game_object_id: chars_to_string(g.as_slice()),
                father: chars_to_string(father.as_slice()),
                children,
            },
        ),
        None => None,
    }
}

/// State of the renderer scan: game object id, enabled, material GUID,
/// and whether the `m_Materials` list is open.
pub open spec fn renderer_step(st: (Option<Seq<char>>, bool, Seq<char>, bool), t: Seq<char>) -> (
    Option<Seq<char>>,
    bool,
    Seq<char>,
    bool,
) {
    let (go, enabled, guid, in_materials) = st;
    match strip_prefix(t, "m_GameObject:"@) {
        Some(v) => (file_id_spec(v), enabled, guid, in_materials),
        None => match strip_prefix(t, "m_Enabled:"@) {
            Some(v) => (go, trim(v) != "0"@, guid, in_materials),
            None => if starts_with(t, "m_Materials:"@) {
                (go, enabled, guid, true)
            } else if in_materials {
                match guid_spec(t) {
                    Some(g) => (go, enabled, g, false),
                    None => if starts_with(t, "m_"@) {
                        (go, enabled, guid, false)
                    } else {
                        st
                    },
                }
            } else {
                st
            },
        },
    }
}

pub open spec fn renderer_scan(ls: Seq<Seq<char>>, n: nat) -> (Option<Seq<char>>, bool, Seq<char>, bool)
    decreases n,
{
    if n == 0 {
        (None, true, Seq::empty(), false)
    } else {
        renderer_step(renderer_scan(ls, (n - 1) as nat), trim(ls[n - 1]))
    }
}

/// A renderer: its game object, material GUID (empty for none) and
/// whether it is enabled.
pub struct RendererInfo {
    pub game_object_id: String,
    pub material_guid: String,
    pub enabled: bool,
}

pub open spec fn renderer_spec(doc: Seq<char>) -> Option<(Seq<char>, Seq<char>, bool)> {
    let st = renderer_scan(lines(doc), lines(doc).len());
    match st.0 {
        Some(go) => Some((go, st.2, st.1)),
        None => None,
    }
}

pub fn parse_renderer(doc: &str) -> (r: Option<RendererInfo>)
    ensures
        match r {
            Some(x) => renderer_spec(doc@) == Some((x.game_object_id@, x.material_guid@, x.enabled)),
            None => renderer_spec(doc@) is None,
        },
{
    let d = str_chars(doc);
    let ls = split_lines(d.as_slice());
    let mut go: Option<Vec<char>> = None;
    let mut enabled = true;
    let mut guid: Vec<char> = Vec::new();
    let mut in_materials = false;
    let mut i: usize = 0;
    while i < ls.len()
        invariant
            vv(ls@) == lines(doc@),
            i <= ls@.len(),
            renderer_scan(lines(doc@), i as nat) == (
                match go {
                    Some(g) => Some(g@),
                    None => None,
                },
                enabled,
                guid@,
                in_materials,
            ),
        decreases ls.len() - i,
    {
        let t = trim_chars(ls[i].as_slice());
        assert(t@ == trim(lines(doc@)[i as int]));
        match strip_prefix_lit(t.as_slice(), "m_GameObject:") {
            Some(v) => {
                go = parse_file_id(v.as_slice());
            },
            None => match strip_prefix_lit(t.as_slice(), "m_Enabled:") {
                Some(v) => {
                    let tv = trim_chars(v.as_slice());
                    enabled = !eq_lit(tv.as_slice(), "0");
                },
                None => {
                    if starts_with_lit(t.as_slice(), "m_Materials:") {
                        in_materials = true;
                    } else if in_materials {
                        match parse_guid(t.as_slice()) {
                            Some(g) => {
                                guid = g;
                                in_materials = false;
                            },
                            None => {
                                if starts_with_lit(t.as_slice(), "m_") {
                                    in_materials = false;
                                }
                            },
                        }
                    }
                },
            },
        }
        i = i + 1;
    }
    match go {
        Some(g) => Some(
            RendererInfo {
                game_object_id: chars_to_string(g.as_slice()),
                material_guid: chars_to_string(guid.as_slice()),
                enabled,
            },
        ),
        None => None,
    }
}


/// The name of a game object document: its first `m_Name:` value.
pub open spec fn game_object_name_spec(doc: Seq<char>) -> Option<Seq<char>> {
    first_some(lines(doc).map_values(|l: Seq<char>| name_line(l)))
}

pub open spec fn name_line(l: Seq<char>) -> Option<Seq<char>> {
    match strip_prefix(trim(l), "m_Name:"@) {
        Some(v) => Some(trim(v)),
        None => None,
    }
}

pub fn parse_game_object_name(doc: &str) -> (r: Option<String>)
    ensures
        match r {
            Some(n) => game_object_name_spec(doc@) == Some(n@),
            None => game_object_name_spec(doc@) is None,
        },
{
    let d = str_chars(doc);
    let ls = split_lines(d.as_slice());
    let ghost vals = lines(doc@).map_values(|l: Seq<char>| name_line(l));
    let mut i: usize = 0;
    assert(vals.skip(0) =~= vals);
    while i < ls.len()
        invariant
            vv(ls@) == lines(doc@),
            vals == lines(doc@).map_values(|l: Seq<char>| name_line(l)),
            i <= ls@.len(),
            first_some(vals) == first_some(vals.skip(i as int)),
        decreases ls.len() - i,
    {
        proof {
            lemma_first_some_step(vals, i as int);
            assert(vals[i as int] == name_line(ls@[i as int]@));
        }
        let t = trim_chars(ls[i].as_slice());
        match strip_prefix_lit(t.as_slice(), "m_Name:") {
            Some(v) => {
                let n = trim_chars(v.as_slice());
                return Some(chars_to_string(n.as_slice()));
            },
            None => {},
        }
        i = i + 1;
    }
    proof {
        lemma_first_some_end(vals);
    }
    None
}

/// The variant a custom part set prefab stands for: `<name>_<n>_SET.prefab`
/// is variant `n - 1`.
pub open spec fn variant_text(filename: Seq<char>) -> Option<Seq<char>> {
    match strip_suffix(filename, ".prefab"@) {
        Some(stem) => match strip_suffix(stem, "_SET"@) {
            Some(s) => match rfind(s, "_"@) {
                Some(i) => Some(s.skip(i + 1)),
                None => None,
            },
            None => None,
        },
        None => None,
    }
}

pub open spec fn variant_spec(filename: Seq<char>) -> Option<int> {
    match variant_text(filename) {
        Some(t) => match parse_i64_spec(t) {
            Some(v) => if i32::MIN <= v <= i32::MAX {
                Some(v)
            } else {
                None
            },
            None => None,
        },
        None => None,
    }
}

/// The default custom part index of a part set prefab file name.
pub fn default_custom_part_index(filename: &str) -> (r: Option<i32>)
    requires
        variant_spec(filename@) != Some(i32::MIN as int),
    ensures
        match r {
            Some(i) => variant_spec(filename@) == Some(i + 1),
            None => variant_spec(filename@) is None,
        },
{
    proof {
        reveal_strlit("_");
    }
    let f = str_chars(filename);
    let stem = match strip_suffix_lit(f.as_slice(), ".prefab") {
        Some(s) => s,
        None => {
            return None;
        },
    };
    let s = match strip_suffix_lit(stem.as_slice(), "_SET") {
        Some(s) => s,
        None => {
            return None;
        },
    };
    match rfind_lit(s.as_slice(), "_") {
        Some(i) => {
            let n = s.len();
            assert(i + 1 <= n);
            let t = copy_range(s.as_slice(), i + 1, n);
            assert(t@ =~= s@.skip(i + 1));
            match parse_i64(t.as_slice()) {
                Some(v) => if -2147483648 <= v && v <= 2147483647 {
                    Some((v - 1) as i32)
                } else {
                    None
                },
                None => None,
            }
        },
        None => None,
    }
}

// ── Sprite lookups and fixed tables ──────────────────

/// Looks up sprite info by name, with the name fallbacks of
/// `sprite_lookup_spec`: the name itself, its base before ` (`, without
/// trailing digits, before a numeric `_` suffix, and then `<name>_01`.
pub fn get_sprite_info<'a, V>(db: &'a PrefabTable<V>, name: &str) -> (r: Option<&'a V>)
    ensures
        match r {
            Some(v) => sprite_lookup_spec(flags_view(*db), name@) == Some(*v),
            None => sprite_lookup_spec(flags_view(*db), name@) is None,
        },
{
    match sprite_asset_index(db, name) {
        Some(i) => Some(&db.entries[i].1),
        None => None,
    }
}

/// The runtime sprite id a UI prefab is shown with, for the prefabs whose
/// first runtime sprite is not the representative one.
pub open spec fn preferred_sprite_id_spec(name: Seq<char>) -> Option<&'static str> {
    if name == "AskAboutNotifications"@ || name == "PurchasePiggyPackIAP"@ || name
        == "WatchSnoutCoinAd"@ {
        Some("ab0c6536-dfc1-46a1-8276-59280b355188")
    } else if name == "CakeRaceReplayEntry"@ {
        Some("a6cac51f-48ca-46da-b2e0-35cb3eacc819")
    } else if name == "CoinSalePopup"@ || name == "CrateCrazePopup"@ {
        Some("d37f6015-afdb-484e-b57f-451218f82ac2")
    } else if name == "ConfirmationErrorDialog"@ || name == "NoFreeSlotsPopup"@ || name
        == "RewardPopup"@ || name == "SandboxUnlock"@ || name == "VideoNotFoundDialog"@ {
        Some("690f29d0-ee21-4724-b083-71eb5e27e6ac")
    } else if name == "DailyChallengeDialog"@ || name == "SnoutCoinShop"@ {
        Some("ef7ae3f3-3a36-4b57-b209-f630d4837795")
    } else if name == "LeaderboardDialog"@ || name == "SeasonEndDialog"@ {
        Some("c41d8f89-5141-453b-8bdb-e42dde37860e")
    } else if name == "LeaderboardEntry"@ || name == "SingleLeaderboardEntry"@ {
        Some("1d802ff7-c5a1-45ef-a084-97f81f37f0c8")
    } else if name == "LevelRowUnlockPanel"@ {
        Some("3f47c76b-3891-4685-adae-029a5e655dc5")
    } else if name == "ResourceBar"@ {
        Some("eea6164b-a556-4787-9420-d82b390e6675")
    } else if name == "ScrapButton"@ {
        Some("913d3f55-e5fe-49f7-b072-ad18875d9ce0")
    } else if name == "SnoutButton"@ {
        Some("dfb4e969-93e2-4d7d-969b-29732cc266c7")
    } else if name == "WorkshopIntroduction"@ {
        Some("f4bb39c9-0562-4c34-bc01-b66ce7c4edc2")
    } else {
        None
    }
}

pub fn preferred_runtime_sprite_id(name: &str) -> (r: Option<&'static str>)
    ensures
        r == preferred_sprite_id_spec(name@),
{
    let n = str_chars(name);
    let n = n.as_slice();
    if eq_lit(n, "AskAboutNotifications") || eq_lit(n, "PurchasePiggyPackIAP") || eq_lit(
        n,
        "WatchSnoutCoinAd",
    ) {
        Some("ab0c6536-dfc1-46a1-8276-59280b355188")
    } else if eq_lit(n, "CakeRaceReplayEntry") {
        Some("a6cac51f-48ca-46da-b2e0-35cb3eacc819")
    } else if eq_lit(n, "CoinSalePopup") || eq_lit(n, "CrateCrazePopup") {
        Some("d37f6015-afdb-484e-b57f-451218f82ac2")
    } else if eq_lit(n, "ConfirmationErrorDialog") || eq_lit(n, "NoFreeSlotsPopup") || eq_lit(
        n,
        "RewardPopup",
    ) || eq_lit(n, "SandboxUnlock") || eq_lit(n, "VideoNotFoundDialog") {
        Some("690f29d0-ee21-4724-b083-71eb5e27e6ac")
    } else if eq_lit(n, "DailyChallengeDialog") || eq_lit(n, "SnoutCoinShop") {
        Some("ef7ae3f3-3a36-4b57-b209-f630d4837795")
    } else if eq_lit(n, "LeaderboardDialog") || eq_lit(n, "SeasonEndDialog") {
        Some("c41d8f89-5141-453b-8bdb-e42dde37860e")
    } else if eq_lit(n, "LeaderboardEntry") || eq_lit(n, "SingleLeaderboardEntry") {
        Some("1d802ff7-c5a1-45ef-a084-97f81f37f0c8")
    } else if eq_lit(n, "LevelRowUnlockPanel") {
        Some("3f47c76b-3891-4685-adae-029a5e655dc5")
    } else if eq_lit(n, "ResourceBar") {
        Some("eea6164b-a556-4787-9420-d82b390e6675")
    } else if eq_lit(n, "ScrapButton") {
        Some("913d3f55-e5fe-49f7-b072-ad18875d9ce0")
    } else if eq_lit(n, "SnoutButton") {
        Some("dfb4e969-93e2-4d7d-969b-29732cc266c7")
    } else if eq_lit(n, "WorkshopIntroduction") {
        Some("f4bb39c9-0562-4c34-bc01-b66ce7c4edc2")
    } else {
        None
    }
}

/// The atlas of a runtime material id by the fixed table, where three
/// shared materials depend on the prefab.
pub open spec fn runtime_atlas_spec(name: Seq<char>, m: Seq<char>) -> Option<&'static str> {
    if m == "04f5524815177fe408f9529a451cd50b"@ || m == "4f58ebaf253ff4341a0acfb2cdf671e6"@ || m
        == "84749b95c69414bd28c174439810c2b0"@ || m == "9148d367fdd7f4e5382e2b9cdf74b461"@ || m
        == "a286b652d38de4df384036482abc0571"@ || m == "d96ee5bd8db944803a0071fc972963a1"@ {
        Some("Ingame_Characters_Sheet_01.png")
    } else if m == "0bc3a371695e64987907110f53db83ec"@ || m == "1f3758e86c0414579989dc55480b23bc"@
        || m == "a96fc7a314a89c041bb1a95fd4c281bf"@ || m == "e0b533defb69748799a56d4ee3b4260b"@ {
        Some("IngameAtlas2.png")
    } else if m == "38fb36d9f174d40fe859d55deb429e95"@ || m == "72a903c5f189843248f4878232222af4"@
        || m == "c2c38ca20a8d040139cb7369bf7be51e"@ || m == "c6cc840a754074fe88e9517644258dc2"@
        || m == "e02abde8d05ec499e9a2ba7f4850c971"@ || m == "eba8c92c7583e4309be6ad3f5e17e27e"@
        || m == "fa87a551483ef4ba690410a25612e993"@ {
        Some("IngameAtlas3.png")
    } else if m == "4f53843aa7627f441a5d9e797e1745d9"@ || m == "51f3931e706115d468eca7f64035a4df"@
        || m == "7844d45e898ea1441a473a80684bf4c4"@ || m == "89bbb403e054f204395edd3b8fea8241"@
        || m == "bb7f816eb0cbb9f4584de6251fbc6eec"@ || m == "f6f09bead2bfb8c47957022817a31c85"@
        || m == "f8cf0aa9b5c55c3469100b3a7044d86e"@ {
        Some("IngameAtlas.png")
    } else if m == "bfa953ce5fc274b6faa59deca6579361"@ || m == "f300c561f75e74380a11f80d4d2647f3"@ {
        Some("Ingame_Sheet_04.png")
    } else if m == "1dc9819db44b840edb8cdec9ef7b80c2"@ {
        if name == "LevelRowUnlockPanel"@ {
            Some("Ingame_Sheet_04.png")
        } else {
            Some("Ingame_Characters_Sheet_01.png")
        }
    } else if m == "20936c462fac24dbb967c450f9cb0cb4"@ {
        if name == "GridCell"@ {
            Some("IngameAtlas2.png")
        } else {
            Some("Ingame_Characters_Sheet_01.png")
        }
    } else if m == "32e759dd981a043fa8fbcfd4997143ea"@ {
        if name == "DailyChallengeDialog"@ || name == "LeaderboardDialog"@ || name
            == "SeasonEndDialog"@ || name == "SnoutCoinShop"@ {
            Some("Ingame_Sheet_04.png")
        } else {
            Some("Ingame_Characters_Sheet_01.png")
        }
    } else {
        None
    }
}

pub fn runtime_atlas_for(name: &str, material_id: &str) -> (r: Option<&'static str>)
    ensures
        r == runtime_atlas_spec(name@, material_id@),
{
    let n = str_chars(name);
    let n = n.as_slice();
    let m = str_chars(material_id);
    let m = m.as_slice();
    if eq_lit(m, "04f5524815177fe408f9529a451cd50b") || eq_lit(m, "4f58ebaf253ff4341a0acfb2cdf671e6")
        || eq_lit(m, "84749b95c69414bd28c174439810c2b0") || eq_lit(
        m,
        "9148d367fdd7f4e5382e2b9cdf74b461",
    ) || eq_lit(m, "a286b652d38de4df384036482abc0571") || eq_lit(
        m,
        "d96ee5bd8db944803a0071fc972963a1",
    ) {
        Some("Ingame_Characters_Sheet_01.png")
    } else if eq_lit(m, "0bc3a371695e64987907110f53db83ec") || eq_lit(
        m,
        "1f3758e86c0414579989dc55480b23bc",
    ) || eq_lit(m, "a96fc7a314a89c041bb1a95fd4c281bf") || eq_lit(
        m,
        "e0b533defb69748799a56d4ee3b4260b",
    ) {
        Some("IngameAtlas2.png")
    } else if eq_lit(m, "38fb36d9f174d40fe859d55deb429e95") || eq_lit(
        m,
        "72a903c5f189843248f4878232222af4",
    ) || eq_lit(m, "c2c38ca20a8d040139cb7369bf7be51e") || eq_lit(
        m,
        "c6cc840a754074fe88e9517644258dc2",
    ) || eq_lit(m, "e02abde8d05ec499e9a2ba7f4850c971") || eq_lit(
        m,
        "eba8c92c7583e4309be6ad3f5e17e27e",
    ) || eq_lit(m, "fa87a551483ef4ba690410a25612e993") {
        Some("IngameAtlas3.png")
    } else if eq_lit(m, "4f53843aa7627f441a5d9e797e1745d9") || eq_lit(
        m,
        "51f3931e706115d468eca7f64035a4df",
    ) || eq_lit(m, "7844d45e898ea1441a473a80684bf4c4") || eq_lit(
        m,
        "89bbb403e054f204395edd3b8fea8241",
    ) || eq_lit(m, "bb7f816eb0cbb9f4584de6251fbc6eec") || eq_lit(
        m,
        "f6f09bead2bfb8c47957022817a31c85",
    ) || eq_lit(m, "f8cf0aa9b5c55c3469100b3a7044d86e") {
        Some("IngameAtlas.png")
    } else if eq_lit(m, "bfa953ce5fc274b6faa59deca6579361") || eq_lit(
        m,
        "f300c561f75e74380a11f80d4d2647f3",
    ) {
        Some("Ingame_Sheet_04.png")
    } else if eq_lit(m, "1dc9819db44b840edb8cdec9ef7b80c2") {
        if eq_lit(n, "LevelRowUnlockPanel") {
            Some("Ingame_Sheet_04.png")
        } else {
            Some("Ingame_Characters_Sheet_01.png")
        }
    } else if eq_lit(m, "20936c462fac24dbb967c450f9cb0cb4") {
        if eq_lit(n, "GridCell") {
            Some("IngameAtlas2.png")
        } else {
            Some("Ingame_Characters_Sheet_01.png")
        }
    } else if eq_lit(m, "32e759dd981a043fa8fbcfd4997143ea") {
        if eq_lit(n, "DailyChallengeDialog") || eq_lit(n, "LeaderboardDialog") || eq_lit(
            n,
            "SeasonEndDialog",
        ) || eq_lit(n, "SnoutCoinShop") {
            Some("Ingame_Sheet_04.png")
        } else {
            Some("Ingame_Characters_Sheet_01.png")
        }
    } else {
        None
    }
}


/// The runtime sprite each game object name prefers, as the game's prefabs give it.
pub proof fn lemma_preferred_runtime_sprite_ids()
    ensures
        preferred_sprite_id_spec("AskAboutNotifications"@) == Some("ab0c6536-dfc1-46a1-8276-59280b355188"),
        preferred_sprite_id_spec("CakeRaceReplayEntry"@) == Some("a6cac51f-48ca-46da-b2e0-35cb3eacc819"),
        preferred_sprite_id_spec("CoinSalePopup"@) == Some("d37f6015-afdb-484e-b57f-451218f82ac2"),
        preferred_sprite_id_spec("CrateCrazePopup"@) == Some("d37f6015-afdb-484e-b57f-451218f82ac2"),
        preferred_sprite_id_spec("ConfirmationErrorDialog"@) == Some("690f29d0-ee21-4724-b083-71eb5e27e6ac"),
        preferred_sprite_id_spec("NoFreeSlotsPopup"@) == Some("690f29d0-ee21-4724-b083-71eb5e27e6ac"),
        preferred_sprite_id_spec("RewardPopup"@) == Some("690f29d0-ee21-4724-b083-71eb5e27e6ac"),
        preferred_sprite_id_spec("SandboxUnlock"@) == Some("690f29d0-ee21-4724-b083-71eb5e27e6ac"),
        preferred_sprite_id_spec("VideoNotFoundDialog"@) == Some("690f29d0-ee21-4724-b083-71eb5e27e6ac"),
        preferred_sprite_id_spec("DailyChallengeDialog"@) == Some("ef7ae3f3-3a36-4b57-b209-f630d4837795"),
        preferred_sprite_id_spec("SnoutCoinShop"@) == Some("ef7ae3f3-3a36-4b57-b209-f630d4837795"),
        preferred_sprite_id_spec("LeaderboardDialog"@) == Some("c41d8f89-5141-453b-8bdb-e42dde37860e"),
        preferred_sprite_id_spec("SeasonEndDialog"@) == Some("c41d8f89-5141-453b-8bdb-e42dde37860e"),
        preferred_sprite_id_spec("LeaderboardEntry"@) == Some("1d802ff7-c5a1-45ef-a084-97f81f37f0c8"),
        preferred_sprite_id_spec("SingleLeaderboardEntry"@) == Some("1d802ff7-c5a1-45ef-a084-97f81f37f0c8"),
        preferred_sprite_id_spec("LevelRowUnlockPanel"@) == Some("3f47c76b-3891-4685-adae-029a5e655dc5"),
        preferred_sprite_id_spec("PurchasePiggyPackIAP"@) == Some("ab0c6536-dfc1-46a1-8276-59280b355188"),
        preferred_sprite_id_spec("WatchSnoutCoinAd"@) == Some("ab0c6536-dfc1-46a1-8276-59280b355188"),
        preferred_sprite_id_spec("ResourceBar"@) == Some("eea6164b-a556-4787-9420-d82b390e6675"),
        preferred_sprite_id_spec("ScrapButton"@) == Some("913d3f55-e5fe-49f7-b072-ad18875d9ce0"),
        preferred_sprite_id_spec("SnoutButton"@) == Some("dfb4e969-93e2-4d7d-969b-29732cc266c7"),
        preferred_sprite_id_spec("WorkshopIntroduction"@) == Some("f4bb39c9-0562-4c34-bc01-b66ce7c4edc2"),
{
    reveal_strlit("AskAboutNotifications");
    reveal_strlit("CakeRaceReplayEntry");
    reveal_strlit("CoinSalePopup");
    reveal_strlit("ConfirmationErrorDialog");
    reveal_strlit("CrateCrazePopup");
    reveal_strlit("DailyChallengeDialog");
    reveal_strlit("LeaderboardDialog");
    reveal_strlit("LeaderboardEntry");
    reveal_strlit("LevelRowUnlockPanel");
    reveal_strlit("NoFreeSlotsPopup");
    reveal_strlit("PurchasePiggyPackIAP");
    reveal_strlit("ResourceBar");
    reveal_strlit("RewardPopup");
    reveal_strlit("SandboxUnlock");
    reveal_strlit("ScrapButton");
    reveal_strlit("SeasonEndDialog");
    reveal_strlit("SingleLeaderboardEntry");
    reveal_strlit("SnoutButton");
    reveal_strlit("SnoutCoinShop");
    reveal_strlit("VideoNotFoundDialog");
    reveal_strlit("WatchSnoutCoinAd");
    reveal_strlit("WorkshopIntroduction");
    assert(preferred_sprite_id_spec("AskAboutNotifications"@) == Some("ab0c6536-dfc1-46a1-8276-59280b355188")) by {
    }
    assert(preferred_sprite_id_spec("CakeRaceReplayEntry"@) == Some("a6cac51f-48ca-46da-b2e0-35cb3eacc819")) by {
        assert("AskAboutNotifications"@.len() != "CakeRaceReplayEntry"@.len());
        assert("PurchasePiggyPackIAP"@.len() != "CakeRaceReplayEntry"@.len());
        assert("WatchSnoutCoinAd"@.len() != "CakeRaceReplayEntry"@.len());
    }
    assert(preferred_sprite_id_spec("CoinSalePopup"@) == Some("d37f6015-afdb-484e-b57f-451218f82ac2")) by {
        assert("AskAboutNotifications"@.len() != "CoinSalePopup"@.len());
        assert("PurchasePiggyPackIAP"@.len() != "CoinSalePopup"@.len());
        assert("WatchSnoutCoinAd"@.len() != "CoinSalePopup"@.len());
        assert("CakeRaceReplayEntry"@.len() != "CoinSalePopup"@.len());
    }
    assert(preferred_sprite_id_spec("CrateCrazePopup"@) == Some("d37f6015-afdb-484e-b57f-451218f82ac2")) by {
        assert("AskAboutNotifications"@.len() != "CrateCrazePopup"@.len());
        assert("PurchasePiggyPackIAP"@.len() != "CrateCrazePopup"@.len());
        assert("WatchSnoutCoinAd"@.len() != "CrateCrazePopup"@.len());
        assert("CakeRaceReplayEntry"@.len() != "CrateCrazePopup"@.len());
        assert("CoinSalePopup"@.len() != "CrateCrazePopup"@.len());
    }
    assert(preferred_sprite_id_spec("ConfirmationErrorDialog"@) == Some("690f29d0-ee21-4724-b083-71eb5e27e6ac")) by {
        assert("AskAboutNotifications"@.len() != "ConfirmationErrorDialog"@.len());
        assert("PurchasePiggyPackIAP"@.len() != "ConfirmationErrorDialog"@.len());
        assert("WatchSnoutCoinAd"@.len() != "ConfirmationErrorDialog"@.len());
        assert("CakeRaceReplayEntry"@.len() != "ConfirmationErrorDialog"@.len());
        assert("CoinSalePopup"@.len() != "ConfirmationErrorDialog"@.len());
        assert("CrateCrazePopup"@.len() != "ConfirmationErrorDialog"@.len());
    }
    assert(preferred_sprite_id_spec("NoFreeSlotsPopup"@) == Some("690f29d0-ee21-4724-b083-71eb5e27e6ac")) by {
        assert("AskAboutNotifications"@.len() != "NoFreeSlotsPopup"@.len());
        assert("PurchasePiggyPackIAP"@.len() != "NoFreeSlotsPopup"@.len());
        assert("WatchSnoutCoinAd"@[0] != "NoFreeSlotsPopup"@[0]);
        assert("CakeRaceReplayEntry"@.len() != "NoFreeSlotsPopup"@.len());
        assert("CoinSalePopup"@.len() != "NoFreeSlotsPopup"@.len());
        assert("CrateCrazePopup"@.len() != "NoFreeSlotsPopup"@.len());
        assert("ConfirmationErrorDialog"@.len() != "NoFreeSlotsPopup"@.len());
    }
    assert(preferred_sprite_id_spec("RewardPopup"@) == Some("690f29d0-ee21-4724-b083-71eb5e27e6ac")) by {
        assert("AskAboutNotifications"@.len() != "RewardPopup"@.len());
        assert("PurchasePiggyPackIAP"@.len() != "RewardPopup"@.len());
        assert("WatchSnoutCoinAd"@.len() != "RewardPopup"@.len());
        assert("CakeRaceReplayEntry"@.len() != "RewardPopup"@.len());
        assert("CoinSalePopup"@.len() != "RewardPopup"@.len());
        assert("CrateCrazePopup"@.len() != "RewardPopup"@.len());
        assert("ConfirmationErrorDialog"@.len() != "RewardPopup"@.len());
        assert("NoFreeSlotsPopup"@.len() != "RewardPopup"@.len());
    }
    assert(preferred_sprite_id_spec("SandboxUnlock"@) == Some("690f29d0-ee21-4724-b083-71eb5e27e6ac")) by {
        assert("AskAboutNotifications"@.len() != "SandboxUnlock"@.len());
        assert("PurchasePiggyPackIAP"@.len() != "SandboxUnlock"@.len());
        assert("WatchSnoutCoinAd"@.len() != "SandboxUnlock"@.len());
        assert("CakeRaceReplayEntry"@.len() != "SandboxUnlock"@.len());
        assert("CoinSalePopup"@[0] != "SandboxUnlock"@[0]);
        assert("CrateCrazePopup"@.len() != "SandboxUnlock"@.len());
        assert("ConfirmationErrorDialog"@.len() != "SandboxUnlock"@.len());
        assert("NoFreeSlotsPopup"@.len() != "SandboxUnlock"@.len());
        assert("RewardPopup"@.len() != "SandboxUnlock"@.len());
    }
    assert(preferred_sprite_id_spec("VideoNotFoundDialog"@) == Some("690f29d0-ee21-4724-b083-71eb5e27e6ac")) by {
        assert("AskAboutNotifications"@.len() != "VideoNotFoundDialog"@.len());
        assert("PurchasePiggyPackIAP"@.len() != "VideoNotFoundDialog"@.len());
        assert("WatchSnoutCoinAd"@.len() != "VideoNotFoundDialog"@.len());
        assert("CakeRaceReplayEntry"@[0] != "VideoNotFoundDialog"@[0]);
        assert("CoinSalePopup"@.len() != "VideoNotFoundDialog"@.len());
        assert("CrateCrazePopup"@.len() != "VideoNotFoundDialog"@.len());
        assert("ConfirmationErrorDialog"@.len() != "VideoNotFoundDialog"@.len());
        assert("NoFreeSlotsPopup"@.len() != "VideoNotFoundDialog"@.len());
        assert("RewardPopup"@.len() != "VideoNotFoundDialog"@.len());
        assert("SandboxUnlock"@.len() != "VideoNotFoundDialog"@.len());
    }
    assert(preferred_sprite_id_spec("DailyChallengeDialog"@) == Some("ef7ae3f3-3a36-4b57-b209-f630d4837795")) by {
        assert("AskAboutNotifications"@.len() != "DailyChallengeDialog"@.len());
        assert("PurchasePiggyPackIAP"@[0] != "DailyChallengeDialog"@[0]);
        assert("WatchSnoutCoinAd"@.len() != "DailyChallengeDialog"@.len());
        assert("CakeRaceReplayEntry"@.len() != "DailyChallengeDialog"@.len());
        assert("CoinSalePopup"@.len() != "DailyChallengeDialog"@.len());
        assert("CrateCrazePopup"@.len() != "DailyChallengeDialog"@.len());
        assert("ConfirmationErrorDialog"@.len() != "DailyChallengeDialog"@.len());
        assert("NoFreeSlotsPopup"@.len() != "DailyChallengeDialog"@.len());
        assert("RewardPopup"@.len() != "DailyChallengeDialog"@.len());
        assert("SandboxUnlock"@.len() != "DailyChallengeDialog"@.len());
        assert("VideoNotFoundDialog"@.len() != "DailyChallengeDialog"@.len());
    }
    assert(preferred_sprite_id_spec("SnoutCoinShop"@) == Some("ef7ae3f3-3a36-4b57-b209-f630d4837795")) by {
        assert("AskAboutNotifications"@.len() != "SnoutCoinShop"@.len());
        assert("PurchasePiggyPackIAP"@.len() != "SnoutCoinShop"@.len());
        assert("WatchSnoutCoinAd"@.len() != "SnoutCoinShop"@.len());
        assert("CakeRaceReplayEntry"@.len() != "SnoutCoinShop"@.len());
        assert("CoinSalePopup"@[0] != "SnoutCoinShop"@[0]);
        assert("CrateCrazePopup"@.len() != "SnoutCoinShop"@.len());
        assert("ConfirmationErrorDialog"@.len() != "SnoutCoinShop"@.len());
        assert("NoFreeSlotsPopup"@.len() != "SnoutCoinShop"@.len());
        assert("RewardPopup"@.len() != "SnoutCoinShop"@.len());
        assert("SandboxUnlock"@[1] != "SnoutCoinShop"@[1]);
        assert("VideoNotFoundDialog"@.len() != "SnoutCoinShop"@.len());
        assert("DailyChallengeDialog"@.len() != "SnoutCoinShop"@.len());
    }
    assert(preferred_sprite_id_spec("LeaderboardDialog"@) == Some("c41d8f89-5141-453b-8bdb-e42dde37860e")) by {
        assert("AskAboutNotifications"@.len() != "LeaderboardDialog"@.len());
        assert("PurchasePiggyPackIAP"@.len() != "LeaderboardDialog"@.len());
        assert("WatchSnoutCoinAd"@.len() != "LeaderboardDialog"@.len());
        assert("CakeRaceReplayEntry"@.len() != "LeaderboardDialog"@.len());
        assert("CoinSalePopup"@.len() != "LeaderboardDialog"@.len());
        assert("CrateCrazePopup"@.len() != "LeaderboardDialog"@.len());
        assert("ConfirmationErrorDialog"@.len() != "LeaderboardDialog"@.len());
        assert("NoFreeSlotsPopup"@.len() != "LeaderboardDialog"@.len());
        assert("RewardPopup"@.len() != "LeaderboardDialog"@.len());
        assert("SandboxUnlock"@.len() != "LeaderboardDialog"@.len());
        assert("VideoNotFoundDialog"@.len() != "LeaderboardDialog"@.len());
        assert("DailyChallengeDialog"@.len() != "LeaderboardDialog"@.len());
        assert("SnoutCoinShop"@.len() != "LeaderboardDialog"@.len());
    }
    assert(preferred_sprite_id_spec("SeasonEndDialog"@) == Some("c41d8f89-5141-453b-8bdb-e42dde37860e")) by {
        assert("AskAboutNotifications"@.len() != "SeasonEndDialog"@.len());
        assert("PurchasePiggyPackIAP"@.len() != "SeasonEndDialog"@.len());
        assert("WatchSnoutCoinAd"@.len() != "SeasonEndDialog"@.len());
        assert("CakeRaceReplayEntry"@.len() != "SeasonEndDialog"@.len());
        assert("CoinSalePopup"@.len() != "SeasonEndDialog"@.len());
        assert("CrateCrazePopup"@[0] != "SeasonEndDialog"@[0]);
        assert("ConfirmationErrorDialog"@.len() != "SeasonEndDialog"@.len());
        assert("NoFreeSlotsPopup"@.len() != "SeasonEndDialog"@.len());
        assert("RewardPopup"@.len() != "SeasonEndDialog"@.len());
        assert("SandboxUnlock"@.len() != "SeasonEndDialog"@.len());
        assert("VideoNotFoundDialog"@.len() != "SeasonEndDialog"@.len());
        assert("DailyChallengeDialog"@.len() != "SeasonEndDialog"@.len());
        assert("SnoutCoinShop"@.len() != "SeasonEndDialog"@.len());
        assert("LeaderboardDialog"@.len() != "SeasonEndDialog"@.len());
    }
    assert(preferred_sprite_id_spec("LeaderboardEntry"@) == Some("1d802ff7-c5a1-45ef-a084-97f81f37f0c8")) by {
        assert("AskAboutNotifications"@.len() != "LeaderboardEntry"@.len());
        assert("PurchasePiggyPackIAP"@.len() != "LeaderboardEntry"@.len());
        assert("WatchSnoutCoinAd"@[0] != "LeaderboardEntry"@[0]);
        assert("CakeRaceReplayEntry"@.len() != "LeaderboardEntry"@.len());
        assert("CoinSalePopup"@.len() != "LeaderboardEntry"@.len());
        assert("CrateCrazePopup"@.len() != "LeaderboardEntry"@.len());
        assert("ConfirmationErrorDialog"@.len() != "LeaderboardEntry"@.len());
        assert("NoFreeSlotsPopup"@[0] != "LeaderboardEntry"@[0]);
        assert("RewardPopup"@.len() != "LeaderboardEntry"@.len());
        assert("SandboxUnlock"@.len() != "LeaderboardEntry"@.len());
        assert("VideoNotFoundDialog"@.len() != "LeaderboardEntry"@.len());
        assert("DailyChallengeDialog"@.len() != "LeaderboardEntry"@.len());
        assert("SnoutCoinShop"@.len() != "LeaderboardEntry"@.len());
        assert("LeaderboardDialog"@.len() != "LeaderboardEntry"@.len());
        assert("SeasonEndDialog"@.len() != "LeaderboardEntry"@.len());
    }
    assert(preferred_sprite_id_spec("SingleLeaderboardEntry"@) == Some("1d802ff7-c5a1-45ef-a084-97f81f37f0c8")) by {
        assert("AskAboutNotifications"@.len() != "SingleLeaderboardEntry"@.len());
        assert("PurchasePiggyPackIAP"@.len() != "SingleLeaderboardEntry"@.len());
        assert("WatchSnoutCoinAd"@.len() != "SingleLeaderboardEntry"@.len());
        assert("CakeRaceReplayEntry"@.len() != "SingleLeaderboardEntry"@.len());
        assert("CoinSalePopup"@.len() != "SingleLeaderboardEntry"@.len());
        assert("CrateCrazePopup"@.len() != "SingleLeaderboardEntry"@.len());
        assert("ConfirmationErrorDialog"@.len() != "SingleLeaderboardEntry"@.len());
        assert("NoFreeSlotsPopup"@.len() != "SingleLeaderboardEntry"@.len());
        assert("RewardPopup"@.len() != "SingleLeaderboardEntry"@.len());
        assert("SandboxUnlock"@.len() != "SingleLeaderboardEntry"@.len());
        assert("VideoNotFoundDialog"@.len() != "SingleLeaderboardEntry"@.len());
        assert("DailyChallengeDialog"@.len() != "SingleLeaderboardEntry"@.len());
        assert("SnoutCoinShop"@.len() != "SingleLeaderboardEntry"@.len());
        assert("LeaderboardDialog"@.len() != "SingleLeaderboardEntry"@.len());
        assert("SeasonEndDialog"@.len() != "SingleLeaderboardEntry"@.len());
        assert("LeaderboardEntry"@.len() != "SingleLeaderboardEntry"@.len());
    }
    assert(preferred_sprite_id_spec("LevelRowUnlockPanel"@) == Some("3f47c76b-3891-4685-adae-029a5e655dc5")) by {
        assert("AskAboutNotifications"@.len() != "LevelRowUnlockPanel"@.len());
        assert("PurchasePiggyPackIAP"@.len() != "LevelRowUnlockPanel"@.len());
        assert("WatchSnoutCoinAd"@.len() != "LevelRowUnlockPanel"@.len());
        assert("CakeRaceReplayEntry"@[0] != "LevelRowUnlockPanel"@[0]);
        assert("CoinSalePopup"@.len() != "LevelRowUnlockPanel"@.len());
        assert("CrateCrazePopup"@.len() != "LevelRowUnlockPanel"@.len());
        assert("ConfirmationErrorDialog"@.len() != "LevelRowUnlockPanel"@.len());
        assert("NoFreeSlotsPopup"@.len() != "LevelRowUnlockPanel"@.len());
        assert("RewardPopup"@.len() != "LevelRowUnlockPanel"@.len());
        assert("SandboxUnlock"@.len() != "LevelRowUnlockPanel"@.len());
        assert("VideoNotFoundDialog"@[0] != "LevelRowUnlockPanel"@[0]);
        assert("DailyChallengeDialog"@.len() != "LevelRowUnlockPanel"@.len());
        assert("SnoutCoinShop"@.len() != "LevelRowUnlockPanel"@.len());
        assert("LeaderboardDialog"@.len() != "LevelRowUnlockPanel"@.len());
        assert("SeasonEndDialog"@.len() != "LevelRowUnlockPanel"@.len());
        assert("LeaderboardEntry"@.len() != "LevelRowUnlockPanel"@.len());
        assert("SingleLeaderboardEntry"@.len() != "LevelRowUnlockPanel"@.len());
    }
    assert(preferred_sprite_id_spec("PurchasePiggyPackIAP"@) == Some("ab0c6536-dfc1-46a1-8276-59280b355188")) by {
        assert("AskAboutNotifications"@.len() != "PurchasePiggyPackIAP"@.len());
    }
    assert(preferred_sprite_id_spec("WatchSnoutCoinAd"@) == Some("ab0c6536-dfc1-46a1-8276-59280b355188")) by {
        assert("AskAboutNotifications"@.len() != "WatchSnoutCoinAd"@.len());
        assert("PurchasePiggyPackIAP"@.len() != "WatchSnoutCoinAd"@.len());
    }
    assert(preferred_sprite_id_spec("ResourceBar"@) == Some("eea6164b-a556-4787-9420-d82b390e6675")) by {
        assert("AskAboutNotifications"@.len() != "ResourceBar"@.len());
        assert("PurchasePiggyPackIAP"@.len() != "ResourceBar"@.len());
        assert("WatchSnoutCoinAd"@.len() != "ResourceBar"@.len());
        assert("CakeRaceReplayEntry"@.len() != "ResourceBar"@.len());
        assert("CoinSalePopup"@.len() != "ResourceBar"@.len());
        assert("CrateCrazePopup"@.len() != "ResourceBar"@.len());
        assert("ConfirmationErrorDialog"@.len() != "ResourceBar"@.len());
        assert("NoFreeSlotsPopup"@.len() != "ResourceBar"@.len());
        assert("RewardPopup"@[2] != "ResourceBar"@[2]);
        assert("SandboxUnlock"@.len() != "ResourceBar"@.len());
        assert("VideoNotFoundDialog"@.len() != "ResourceBar"@.len());
        assert("DailyChallengeDialog"@.len() != "ResourceBar"@.len());
        assert("SnoutCoinShop"@.len() != "ResourceBar"@.len());
        assert("LeaderboardDialog"@.len() != "ResourceBar"@.len());
        assert("SeasonEndDialog"@.len() != "ResourceBar"@.len());
        assert("LeaderboardEntry"@.len() != "ResourceBar"@.len());
        assert("SingleLeaderboardEntry"@.len() != "ResourceBar"@.len());
        assert("LevelRowUnlockPanel"@.len() != "ResourceBar"@.len());
    }
    assert(preferred_sprite_id_spec("ScrapButton"@) == Some("913d3f55-e5fe-49f7-b072-ad18875d9ce0")) by {
        assert("AskAboutNotifications"@.len() != "ScrapButton"@.len());
        assert("PurchasePiggyPackIAP"@.len() != "ScrapButton"@.len());
        assert("WatchSnoutCoinAd"@.len() != "ScrapButton"@.len());
        assert("CakeRaceReplayEntry"@.len() != "ScrapButton"@.len());
        assert("CoinSalePopup"@.len() != "ScrapButton"@.len());
        assert("CrateCrazePopup"@.len() != "ScrapButton"@.len());
        assert("ConfirmationErrorDialog"@.len() != "ScrapButton"@.len());
        assert("NoFreeSlotsPopup"@.len() != "ScrapButton"@.len());
        assert("RewardPopup"@[0] != "ScrapButton"@[0]);
        assert("SandboxUnlock"@.len() != "ScrapButton"@.len());
        assert("VideoNotFoundDialog"@.len() != "ScrapButton"@.len());
        assert("DailyChallengeDialog"@.len() != "ScrapButton"@.len());
        assert("SnoutCoinShop"@.len() != "ScrapButton"@.len());
        assert("LeaderboardDialog"@.len() != "ScrapButton"@.len());
        assert("SeasonEndDialog"@.len() != "ScrapButton"@.len());
        assert("LeaderboardEntry"@.len() != "ScrapButton"@.len());
        assert("SingleLeaderboardEntry"@.len() != "ScrapButton"@.len());
        assert("LevelRowUnlockPanel"@.len() != "ScrapButton"@.len());
        assert("ResourceBar"@[0] != "ScrapButton"@[0]);
    }
    assert(preferred_sprite_id_spec("SnoutButton"@) == Some("dfb4e969-93e2-4d7d-969b-29732cc266c7")) by {
        assert("AskAboutNotifications"@.len() != "SnoutButton"@.len());
        assert("PurchasePiggyPackIAP"@.len() != "SnoutButton"@.len());
        assert("WatchSnoutCoinAd"@.len() != "SnoutButton"@.len());
        assert("CakeRaceReplayEntry"@.len() != "SnoutButton"@.len());
        assert("CoinSalePopup"@.len() != "SnoutButton"@.len());
        assert("CrateCrazePopup"@.len() != "SnoutButton"@.len());
        assert("ConfirmationErrorDialog"@.len() != "SnoutButton"@.len());
        assert("NoFreeSlotsPopup"@.len() != "SnoutButton"@.len());
        assert("RewardPopup"@[0] != "SnoutButton"@[0]);
        assert("SandboxUnlock"@.len() != "SnoutButton"@.len());
        assert("VideoNotFoundDialog"@.len() != "SnoutButton"@.len());
        assert("DailyChallengeDialog"@.len() != "SnoutButton"@.len());
        assert("SnoutCoinShop"@.len() != "SnoutButton"@.len());
        assert("LeaderboardDialog"@.len() != "SnoutButton"@.len());
        assert("SeasonEndDialog"@.len() != "SnoutButton"@.len());
        assert("LeaderboardEntry"@.len() != "SnoutButton"@.len());
        assert("SingleLeaderboardEntry"@.len() != "SnoutButton"@.len());
        assert("LevelRowUnlockPanel"@.len() != "SnoutButton"@.len());
        assert("ResourceBar"@[0] != "SnoutButton"@[0]);
        assert("ScrapButton"@[1] != "SnoutButton"@[1]);
    }
    assert(preferred_sprite_id_spec("WorkshopIntroduction"@) == Some("f4bb39c9-0562-4c34-bc01-b66ce7c4edc2")) by {
        assert("AskAboutNotifications"@.len() != "WorkshopIntroduction"@.len());
        assert("PurchasePiggyPackIAP"@[0] != "WorkshopIntroduction"@[0]);
        assert("WatchSnoutCoinAd"@.len() != "WorkshopIntroduction"@.len());
        assert("CakeRaceReplayEntry"@.len() != "WorkshopIntroduction"@.len());
        assert("CoinSalePopup"@.len() != "WorkshopIntroduction"@.len());
        assert("CrateCrazePopup"@.len() != "WorkshopIntroduction"@.len());
        assert("ConfirmationErrorDialog"@.len() != "WorkshopIntroduction"@.len());
        assert("NoFreeSlotsPopup"@.len() != "WorkshopIntroduction"@.len());
        assert("RewardPopup"@.len() != "WorkshopIntroduction"@.len());
        assert("SandboxUnlock"@.len() != "WorkshopIntroduction"@.len());
        assert("VideoNotFoundDialog"@.len() != "WorkshopIntroduction"@.len());
        assert("DailyChallengeDialog"@[0] != "WorkshopIntroduction"@[0]);
        assert("SnoutCoinShop"@.len() != "WorkshopIntroduction"@.len());
        assert("LeaderboardDialog"@.len() != "WorkshopIntroduction"@.len());
        assert("SeasonEndDialog"@.len() != "WorkshopIntroduction"@.len());
        assert("LeaderboardEntry"@.len() != "WorkshopIntroduction"@.len());
        assert("SingleLeaderboardEntry"@.len() != "WorkshopIntroduction"@.len());
        assert("LevelRowUnlockPanel"@.len() != "WorkshopIntroduction"@.len());
        assert("ResourceBar"@.len() != "WorkshopIntroduction"@.len());
        assert("ScrapButton"@.len() != "WorkshopIntroduction"@.len());
        assert("SnoutButton"@.len() != "WorkshopIntroduction"@.len());
    }
}


/// The atlas of each runtime material, for every game object name; three
/// materials depend on the object's name.
pub proof fn lemma_runtime_material_atlases(name: Seq<char>)
    ensures
        runtime_atlas_spec(name, "04f5524815177fe408f9529a451cd50b"@) == Some("Ingame_Characters_Sheet_01.png"),
        runtime_atlas_spec(name, "4f58ebaf253ff4341a0acfb2cdf671e6"@) == Some("Ingame_Characters_Sheet_01.png"),
        runtime_atlas_spec(name, "84749b95c69414bd28c174439810c2b0"@) == Some("Ingame_Characters_Sheet_01.png"),
        runtime_atlas_spec(name, "9148d367fdd7f4e5382e2b9cdf74b461"@) == Some("Ingame_Characters_Sheet_01.png"),
        runtime_atlas_spec(name, "a286b652d38de4df384036482abc0571"@) == Some("Ingame_Characters_Sheet_01.png"),
        runtime_atlas_spec(name, "d96ee5bd8db944803a0071fc972963a1"@) == Some("Ingame_Characters_Sheet_01.png"),
        runtime_atlas_spec(name, "0bc3a371695e64987907110f53db83ec"@) == Some("IngameAtlas2.png"),
        runtime_atlas_spec(name, "1f3758e86c0414579989dc55480b23bc"@) == Some("IngameAtlas2.png"),
        runtime_atlas_spec(name, "a96fc7a314a89c041bb1a95fd4c281bf"@) == Some("IngameAtlas2.png"),
        runtime_atlas_spec(name, "e0b533defb69748799a56d4ee3b4260b"@) == Some("IngameAtlas2.png"),
        runtime_atlas_spec(name, "38fb36d9f174d40fe859d55deb429e95"@) == Some("IngameAtlas3.png"),
        runtime_atlas_spec(name, "72a903c5f189843248f4878232222af4"@) == Some("IngameAtlas3.png"),
        runtime_atlas_spec(name, "c2c38ca20a8d040139cb7369bf7be51e"@) == Some("IngameAtlas3.png"),
        runtime_atlas_spec(name, "c6cc840a754074fe88e9517644258dc2"@) == Some("IngameAtlas3.png"),
        runtime_atlas_spec(name, "e02abde8d05ec499e9a2ba7f4850c971"@) == Some("IngameAtlas3.png"),
        runtime_atlas_spec(name, "eba8c92c7583e4309be6ad3f5e17e27e"@) == Some("IngameAtlas3.png"),
        runtime_atlas_spec(name, "fa87a551483ef4ba690410a25612e993"@) == Some("IngameAtlas3.png"),
        runtime_atlas_spec(name, "4f53843aa7627f441a5d9e797e1745d9"@) == Some("IngameAtlas.png"),
        runtime_atlas_spec(name, "51f3931e706115d468eca7f64035a4df"@) == Some("IngameAtlas.png"),
        runtime_atlas_spec(name, "7844d45e898ea1441a473a80684bf4c4"@) == Some("IngameAtlas.png"),
        runtime_atlas_spec(name, "89bbb403e054f204395edd3b8fea8241"@) == Some("IngameAtlas.png"),
        runtime_atlas_spec(name, "bb7f816eb0cbb9f4584de6251fbc6eec"@) == Some("IngameAtlas.png"),
        runtime_atlas_spec(name, "f6f09bead2bfb8c47957022817a31c85"@) == Some("IngameAtlas.png"),
        runtime_atlas_spec(name, "f8cf0aa9b5c55c3469100b3a7044d86e"@) == Some("IngameAtlas.png"),
        runtime_atlas_spec(name, "bfa953ce5fc274b6faa59deca6579361"@) == Some("Ingame_Sheet_04.png"),
        runtime_atlas_spec(name, "f300c561f75e74380a11f80d4d2647f3"@) == Some("Ingame_Sheet_04.png"),
        runtime_atlas_spec("LevelRowUnlockPanel"@, "1dc9819db44b840edb8cdec9ef7b80c2"@) == Some("Ingame_Sheet_04.png"),
        name != "LevelRowUnlockPanel"@ ==> runtime_atlas_spec(name, "1dc9819db44b840edb8cdec9ef7b80c2"@) == Some("Ingame_Characters_Sheet_01.png"),
        runtime_atlas_spec("GridCell"@, "20936c462fac24dbb967c450f9cb0cb4"@) == Some("IngameAtlas2.png"),
        name != "GridCell"@ ==> runtime_atlas_spec(name, "20936c462fac24dbb967c450f9cb0cb4"@) == Some("Ingame_Characters_Sheet_01.png"),
        runtime_atlas_spec("DailyChallengeDialog"@, "32e759dd981a043fa8fbcfd4997143ea"@) == Some("Ingame_Sheet_04.png"),
        runtime_atlas_spec("LeaderboardDialog"@, "32e759dd981a043fa8fbcfd4997143ea"@) == Some("Ingame_Sheet_04.png"),
        runtime_atlas_spec("SeasonEndDialog"@, "32e759dd981a043fa8fbcfd4997143ea"@) == Some("Ingame_Sheet_04.png"),
        runtime_atlas_spec("SnoutCoinShop"@, "32e759dd981a043fa8fbcfd4997143ea"@) == Some("Ingame_Sheet_04.png"),
        !(name == "DailyChallengeDialog"@ || name == "LeaderboardDialog"@ || name == "SeasonEndDialog"@ || name == "SnoutCoinShop"@) ==> runtime_atlas_spec(name, "32e759dd981a043fa8fbcfd4997143ea"@) == Some("Ingame_Characters_Sheet_01.png"),
{
    reveal_strlit("04f5524815177fe408f9529a451cd50b");
    reveal_strlit("0bc3a371695e64987907110f53db83ec");
    reveal_strlit("1dc9819db44b840edb8cdec9ef7b80c2");
    reveal_strlit("1f3758e86c0414579989dc55480b23bc");
    reveal_strlit("20936c462fac24dbb967c450f9cb0cb4");
    reveal_strlit("32e759dd981a043fa8fbcfd4997143ea");
    reveal_strlit("38fb36d9f174d40fe859d55deb429e95");
    reveal_strlit("4f53843aa7627f441a5d9e797e1745d9");
    reveal_strlit("4f58ebaf253ff4341a0acfb2cdf671e6");
    reveal_strlit("51f3931e706115d468eca7f64035a4df");
    reveal_strlit("72a903c5f189843248f4878232222af4");
    reveal_strlit("7844d45e898ea1441a473a80684bf4c4");
    reveal_strlit("84749b95c69414bd28c174439810c2b0");
    reveal_strlit("89bbb403e054f204395edd3b8fea8241");
    reveal_strlit("9148d367fdd7f4e5382e2b9cdf74b461");
    reveal_strlit("DailyChallengeDialog");
    reveal_strlit("GridCell");
    reveal_strlit("LeaderboardDialog");
    reveal_strlit("LevelRowUnlockPanel");
    reveal_strlit("SeasonEndDialog");
    reveal_strlit("SnoutCoinShop");
    reveal_strlit("a286b652d38de4df384036482abc0571");
    reveal_strlit("a96fc7a314a89c041bb1a95fd4c281bf");
    reveal_strlit("bb7f816eb0cbb9f4584de6251fbc6eec");
    reveal_strlit("bfa953ce5fc274b6faa59deca6579361");
    reveal_strlit("c2c38ca20a8d040139cb7369bf7be51e");
    reveal_strlit("c6cc840a754074fe88e9517644258dc2");
    reveal_strlit("d96ee5bd8db944803a0071fc972963a1");
    reveal_strlit("e02abde8d05ec499e9a2ba7f4850c971");
    reveal_strlit("e0b533defb69748799a56d4ee3b4260b");
    reveal_strlit("eba8c92c7583e4309be6ad3f5e17e27e");
    reveal_strlit("f300c561f75e74380a11f80d4d2647f3");
    reveal_strlit("f6f09bead2bfb8c47957022817a31c85");
    reveal_strlit("f8cf0aa9b5c55c3469100b3a7044d86e");
    reveal_strlit("fa87a551483ef4ba690410a25612e993");
    assert(runtime_atlas_spec(name, "04f5524815177fe408f9529a451cd50b"@) == Some("Ingame_Characters_Sheet_01.png")) by {
    }
    assert(runtime_atlas_spec(name, "4f58ebaf253ff4341a0acfb2cdf671e6"@) == Some("Ingame_Characters_Sheet_01.png")) by {
        assert("04f5524815177fe408f9529a451cd50b"@[0] != "4f58ebaf253ff4341a0acfb2cdf671e6"@[0]);
    }
    assert(runtime_atlas_spec(name, "84749b95c69414bd28c174439810c2b0"@) == Some("Ingame_Characters_Sheet_01.png")) by {
        assert("04f5524815177fe408f9529a451cd50b"@[0] != "84749b95c69414bd28c174439810c2b0"@[0]);
        assert("4f58ebaf253ff4341a0acfb2cdf671e6"@[0] != "84749b95c69414bd28c174439810c2b0"@[0]);
    }
    assert(runtime_atlas_spec(name, "9148d367fdd7f4e5382e2b9cdf74b461"@) == Some("Ingame_Characters_Sheet_01.png")) by {
        assert("04f5524815177fe408f9529a451cd50b"@[0] != "9148d367fdd7f4e5382e2b9cdf74b461"@[0]);
        assert("4f58ebaf253ff4341a0acfb2cdf671e6"@[0] != "9148d367fdd7f4e5382e2b9cdf74b461"@[0]);
        assert("84749b95c69414bd28c174439810c2b0"@[0] != "9148d367fdd7f4e5382e2b9cdf74b461"@[0]);
    }
    assert(runtime_atlas_spec(name, "a286b652d38de4df384036482abc0571"@) == Some("Ingame_Characters_Sheet_01.png")) by {
        assert("04f5524815177fe408f9529a451cd50b"@[0] != "a286b652d38de4df384036482abc0571"@[0]);
        assert("4f58ebaf253ff4341a0acfb2cdf671e6"@[0] != "a286b652d38de4df384036482abc0571"@[0]);
        assert("84749b95c69414bd28c174439810c2b0"@[0] != "a286b652d38de4df384036482abc0571"@[0]);
        assert("9148d367fdd7f4e5382e2b9cdf74b461"@[0] != "a286b652d38de4df384036482abc0571"@[0]);
    }
    assert(runtime_atlas_spec(name, "d96ee5bd8db944803a0071fc972963a1"@) == Some("Ingame_Characters_Sheet_01.png")) by {
        assert("04f5524815177fe408f9529a451cd50b"@[0] != "d96ee5bd8db944803a0071fc972963a1"@[0]);
        assert("4f58ebaf253ff4341a0acfb2cdf671e6"@[0] != "d96ee5bd8db944803a0071fc972963a1"@[0]);
        assert("84749b95c69414bd28c174439810c2b0"@[0] != "d96ee5bd8db944803a0071fc972963a1"@[0]);
        assert("9148d367fdd7f4e5382e2b9cdf74b461"@[0] != "d96ee5bd8db944803a0071fc972963a1"@[0]);
        assert("a286b652d38de4df384036482abc0571"@[0] != "d96ee5bd8db944803a0071fc972963a1"@[0]);
    }
    assert(runtime_atlas_spec(name, "0bc3a371695e64987907110f53db83ec"@) == Some("IngameAtlas2.png")) by {
        assert("04f5524815177fe408f9529a451cd50b"@[1] != "0bc3a371695e64987907110f53db83ec"@[1]);
        assert("4f58ebaf253ff4341a0acfb2cdf671e6"@[0] != "0bc3a371695e64987907110f53db83ec"@[0]);
        assert("84749b95c69414bd28c174439810c2b0"@[0] != "0bc3a371695e64987907110f53db83ec"@[0]);
        assert("9148d367fdd7f4e5382e2b9cdf74b461"@[0] != "0bc3a371695e64987907110f53db83ec"@[0]);
        assert("a286b652d38de4df384036482abc0571"@[0] != "0bc3a371695e64987907110f53db83ec"@[0]);
        assert("d96ee5bd8db944803a0071fc972963a1"@[0] != "0bc3a371695e64987907110f53db83ec"@[0]);
    }
    assert(runtime_atlas_spec(name, "1f3758e86c0414579989dc55480b23bc"@) == Some("IngameAtlas2.png")) by {
        assert("04f5524815177fe408f9529a451cd50b"@[0] != "1f3758e86c0414579989dc55480b23bc"@[0]);
        assert("4f58ebaf253ff4341a0acfb2cdf671e6"@[0] != "1f3758e86c0414579989dc55480b23bc"@[0]);
        assert("84749b95c69414bd28c174439810c2b0"@[0] != "1f3758e86c0414579989dc55480b23bc"@[0]);
        assert("9148d367fdd7f4e5382e2b9cdf74b461"@[0] != "1f3758e86c0414579989dc55480b23bc"@[0]);
        assert("a286b652d38de4df384036482abc0571"@[0] != "1f3758e86c0414579989dc55480b23bc"@[0]);
        assert("d96ee5bd8db944803a0071fc972963a1"@[0] != "1f3758e86c0414579989dc55480b23bc"@[0]);
        assert("0bc3a371695e64987907110f53db83ec"@[0] != "1f3758e86c0414579989dc55480b23bc"@[0]);
    }
    assert(runtime_atlas_spec(name, "a96fc7a314a89c041bb1a95fd4c281bf"@) == Some("IngameAtlas2.png")) by {
        assert("04f5524815177fe408f9529a451cd50b"@[0] != "a96fc7a314a89c041bb1a95fd4c281bf"@[0]);
        assert("4f58ebaf253ff4341a0acfb2cdf671e6"@[0] != "a96fc7a314a89c041bb1a95fd4c281bf"@[0]);
        assert("84749b95c69414bd28c174439810c2b0"@[0] != "a96fc7a314a89c041bb1a95fd4c281bf"@[0]);
        assert("9148d367fdd7f4e5382e2b9cdf74b461"@[0] != "a96fc7a314a89c041bb1a95fd4c281bf"@[0]);
        assert("a286b652d38de4df384036482abc0571"@[1] != "a96fc7a314a89c041bb1a95fd4c281bf"@[1]);
        assert("d96ee5bd8db944803a0071fc972963a1"@[0] != "a96fc7a314a89c041bb1a95fd4c281bf"@[0]);
        assert("0bc3a371695e64987907110f53db83ec"@[0] != "a96fc7a314a89c041bb1a95fd4c281bf"@[0]);
        assert("1f3758e86c0414579989dc55480b23bc"@[0] != "a96fc7a314a89c041bb1a95fd4c281bf"@[0]);
    }
    assert(runtime_atlas_spec(name, "e0b533defb69748799a56d4ee3b4260b"@) == Some("IngameAtlas2.png")) by {
        assert("04f5524815177fe408f9529a451cd50b"@[0] != "e0b533defb69748799a56d4ee3b4260b"@[0]);
        assert("4f58ebaf253ff4341a0acfb2cdf671e6"@[0] != "e0b533defb69748799a56d4ee3b4260b"@[0]);
        assert("84749b95c69414bd28c174439810c2b0"@[0] != "e0b533defb69748799a56d4ee3b4260b"@[0]);
        assert("9148d367fdd7f4e5382e2b9cdf74b461"@[0] != "e0b533defb69748799a56d4ee3b4260b"@[0]);
        assert("a286b652d38de4df384036482abc0571"@[0] != "e0b533defb69748799a56d4ee3b4260b"@[0]);
        assert("d96ee5bd8db944803a0071fc972963a1"@[0] != "e0b533defb69748799a56d4ee3b4260b"@[0]);
        assert("0bc3a371695e64987907110f53db83ec"@[0] != "e0b533defb69748799a56d4ee3b4260b"@[0]);
        assert("1f3758e86c0414579989dc55480b23bc"@[0] != "e0b533defb69748799a56d4ee3b4260b"@[0]);
        assert("a96fc7a314a89c041bb1a95fd4c281bf"@[0] != "e0b533defb69748799a56d4ee3b4260b"@[0]);
    }
    assert(runtime_atlas_spec(name, "38fb36d9f174d40fe859d55deb429e95"@) == Some("IngameAtlas3.png")) by {
        assert("04f5524815177fe408f9529a451cd50b"@[0] != "38fb36d9f174d40fe859d55deb429e95"@[0]);
        assert("4f58ebaf253ff4341a0acfb2cdf671e6"@[0] != "38fb36d9f174d40fe859d55deb429e95"@[0]);
        assert("84749b95c69414bd28c174439810c2b0"@[0] != "38fb36d9f174d40fe859d55deb429e95"@[0]);
        assert("9148d367fdd7f4e5382e2b9cdf74b461"@[0] != "38fb36d9f174d40fe859d55deb429e95"@[0]);
        assert("a286b652d38de4df384036482abc0571"@[0] != "38fb36d9f174d40fe859d55deb429e95"@[0]);
        assert("d96ee5bd8db944803a0071fc972963a1"@[0] != "38fb36d9f174d40fe859d55deb429e95"@[0]);
        assert("0bc3a371695e64987907110f53db83ec"@[0] != "38fb36d9f174d40fe859d55deb429e95"@[0]);
        assert("1f3758e86c0414579989dc55480b23bc"@[0] != "38fb36d9f174d40fe859d55deb429e95"@[0]);
        assert("a96fc7a314a89c041bb1a95fd4c281bf"@[0] != "38fb36d9f174d40fe859d55deb429e95"@[0]);
        assert("e0b533defb69748799a56d4ee3b4260b"@[0] != "38fb36d9f174d40fe859d55deb429e95"@[0]);
    }
    assert(runtime_atlas_spec(name, "72a903c5f189843248f4878232222af4"@) == Some("IngameAtlas3.png")) by {
        assert("04f5524815177fe408f9529a451cd50b"@[0] != "72a903c5f189843248f4878232222af4"@[0]);
        assert("4f58ebaf253ff4341a0acfb2cdf671e6"@[0] != "72a903c5f189843248f4878232222af4"@[0]);
        assert("84749b95c69414bd28c174439810c2b0"@[0] != "72a903c5f189843248f4878232222af4"@[0]);
        assert("9148d367fdd7f4e5382e2b9cdf74b461"@[0] != "72a903c5f189843248f4878232222af4"@[0]);
        assert("a286b652d38de4df384036482abc0571"@[0] != "72a903c5f189843248f4878232222af4"@[0]);
        assert("d96ee5bd8db944803a0071fc972963a1"@[0] != "72a903c5f189843248f4878232222af4"@[0]);
        assert("0bc3a371695e64987907110f53db83ec"@[0] != "72a903c5f189843248f4878232222af4"@[0]);
        assert("1f3758e86c0414579989dc55480b23bc"@[0] != "72a903c5f189843248f4878232222af4"@[0]);
        assert("a96fc7a314a89c041bb1a95fd4c281bf"@[0] != "72a903c5f189843248f4878232222af4"@[0]);
        assert("e0b533defb69748799a56d4ee3b4260b"@[0] != "72a903c5f189843248f4878232222af4"@[0]);
        assert("38fb36d9f174d40fe859d55deb429e95"@[0] != "72a903c5f189843248f4878232222af4"@[0]);
    }
    assert(runtime_atlas_spec(name, "c2c38ca20a8d040139cb7369bf7be51e"@) == Some("IngameAtlas3.png")) by {
        assert("04f5524815177fe408f9529a451cd50b"@[0] != "c2c38ca20a8d040139cb7369bf7be51e"@[0]);
        assert("4f58ebaf253ff4341a0acfb2cdf671e6"@[0] != "c2c38ca20a8d040139cb7369bf7be51e"@[0]);
        assert("84749b95c69414bd28c174439810c2b0"@[0] != "c2c38ca20a8d040139cb7369bf7be51e"@[0]);
        assert("9148d367fdd7f4e5382e2b9cdf74b461"@[0] != "c2c38ca20a8d040139cb7369bf7be51e"@[0]);
        assert("a286b652d38de4df384036482abc0571"@[0] != "c2c38ca20a8d040139cb7369bf7be51e"@[0]);
        assert("d96ee5bd8db944803a0071fc972963a1"@[0] != "c2c38ca20a8d040139cb7369bf7be51e"@[0]);
        assert("0bc3a371695e64987907110f53db83ec"@[0] != "c2c38ca20a8d040139cb7369bf7be51e"@[0]);
        assert("1f3758e86c0414579989dc55480b23bc"@[0] != "c2c38ca20a8d040139cb7369bf7be51e"@[0]);
        assert("a96fc7a314a89c041bb1a95fd4c281bf"@[0] != "c2c38ca20a8d040139cb7369bf7be51e"@[0]);
        assert("e0b533defb69748799a56d4ee3b4260b"@[0] != "c2c38ca20a8d040139cb7369bf7be51e"@[0]);
        assert("38fb36d9f174d40fe859d55deb429e95"@[0] != "c2c38ca20a8d040139cb7369bf7be51e"@[0]);
        assert("72a903c5f189843248f4878232222af4"@[0] != "c2c38ca20a8d040139cb7369bf7be51e"@[0]);
    }
    assert(runtime_atlas_spec(name, "c6cc840a754074fe88e9517644258dc2"@) == Some("IngameAtlas3.png")) by {
        assert("04f5524815177fe408f9529a451cd50b"@[0] != "c6cc840a754074fe88e9517644258dc2"@[0]);
        assert("4f58ebaf253ff4341a0acfb2cdf671e6"@[0] != "c6cc840a754074fe88e9517644258dc2"@[0]);
        assert("84749b95c69414bd28c174439810c2b0"@[0] != "c6cc840a754074fe88e9517644258dc2"@[0]);
        assert("9148d367fdd7f4e5382e2b9cdf74b461"@[0] != "c6cc840a754074fe88e9517644258dc2"@[0]);
        assert("a286b652d38de4df384036482abc0571"@[0] != "c6cc840a754074fe88e9517644258dc2"@[0]);
        assert("d96ee5bd8db944803a0071fc972963a1"@[0] != "c6cc840a754074fe88e9517644258dc2"@[0]);
        assert("0bc3a371695e64987907110f53db83ec"@[0] != "c6cc840a754074fe88e9517644258dc2"@[0]);
        assert("1f3758e86c0414579989dc55480b23bc"@[0] != "c6cc840a754074fe88e9517644258dc2"@[0]);
        assert("a96fc7a314a89c041bb1a95fd4c281bf"@[0] != "c6cc840a754074fe88e9517644258dc2"@[0]);
        assert("e0b533defb69748799a56d4ee3b4260b"@[0] != "c6cc840a754074fe88e9517644258dc2"@[0]);
        assert("38fb36d9f174d40fe859d55deb429e95"@[0] != "c6cc840a754074fe88e9517644258dc2"@[0]);
        assert("72a903c5f189843248f4878232222af4"@[0] != "c6cc840a754074fe88e9517644258dc2"@[0]);
        assert("c2c38ca20a8d040139cb7369bf7be51e"@[1] != "c6cc840a754074fe88e9517644258dc2"@[1]);
    }
    assert(runtime_atlas_spec(name, "e02abde8d05ec499e9a2ba7f4850c971"@) == Some("IngameAtlas3.png")) by {
        assert("04f5524815177fe408f9529a451cd50b"@[0] != "e02abde8d05ec499e9a2ba7f4850c971"@[0]);
        assert("4f58ebaf253ff4341a0acfb2cdf671e6"@[0] != "e02abde8d05ec499e9a2ba7f4850c971"@[0]);
        assert("84749b95c69414bd28c174439810c2b0"@[0] != "e02abde8d05ec499e9a2ba7f4850c971"@[0]);
        assert("9148d367fdd7f4e5382e2b9cdf74b461"@[0] != "e02abde8d05ec499e9a2ba7f4850c971"@[0]);
        assert("a286b652d38de4df384036482abc0571"@[0] != "e02abde8d05ec499e9a2ba7f4850c971"@[0]);
        assert("d96ee5bd8db944803a0071fc972963a1"@[0] != "e02abde8d05ec499e9a2ba7f4850c971"@[0]);
        assert("0bc3a371695e64987907110f53db83ec"@[0] != "e02abde8d05ec499e9a2ba7f4850c971"@[0]);
        assert("1f3758e86c0414579989dc55480b23bc"@[0] != "e02abde8d05ec499e9a2ba7f4850c971"@[0]);
        assert("a96fc7a314a89c041bb1a95fd4c281bf"@[0] != "e02abde8d05ec499e9a2ba7f4850c971"@[0]);
        assert("e0b533defb69748799a56d4ee3b4260b"@[2] != "e02abde8d05ec499e9a2ba7f4850c971"@[2]);
        assert("38fb36d9f174d40fe859d55deb429e95"@[0] != "e02abde8d05ec499e9a2ba7f4850c971"@[0]);
        assert("72a903c5f189843248f4878232222af4"@[0] != "e02abde8d05ec499e9a2ba7f4850c971"@[0]);
        assert("c2c38ca20a8d040139cb7369bf7be51e"@[0] != "e02abde8d05ec499e9a2ba7f4850c971"@[0]);
        assert("c6cc840a754074fe88e9517644258dc2"@[0] != "e02abde8d05ec499e9a2ba7f4850c971"@[0]);
    }
    assert(runtime_atlas_spec(name, "eba8c92c7583e4309be6ad3f5e17e27e"@) == Some("IngameAtlas3.png")) by {
        assert("04f5524815177fe408f9529a451cd50b"@[0] != "eba8c92c7583e4309be6ad3f5e17e27e"@[0]);
        assert("4f58ebaf253ff4341a0acfb2cdf671e6"@[0] != "eba8c92c7583e4309be6ad3f5e17e27e"@[0]);
        assert("84749b95c69414bd28c174439810c2b0"@[0] != "eba8c92c7583e4309be6ad3f5e17e27e"@[0]);
        assert("9148d367fdd7f4e5382e2b9cdf74b461"@[0] != "eba8c92c7583e4309be6ad3f5e17e27e"@[0]);
        assert("a286b652d38de4df384036482abc0571"@[0] != "eba8c92c7583e4309be6ad3f5e17e27e"@[0]);
        assert("d96ee5bd8db944803a0071fc972963a1"@[0] != "eba8c92c7583e4309be6ad3f5e17e27e"@[0]);
        assert("0bc3a371695e64987907110f53db83ec"@[0] != "eba8c92c7583e4309be6ad3f5e17e27e"@[0]);
        assert("1f3758e86c0414579989dc55480b23bc"@[0] != "eba8c92c7583e4309be6ad3f5e17e27e"@[0]);
        assert("a96fc7a314a89c041bb1a95fd4c281bf"@[0] != "eba8c92c7583e4309be6ad3f5e17e27e"@[0]);
        assert("e0b533defb69748799a56d4ee3b4260b"@[1] != "eba8c92c7583e4309be6ad3f5e17e27e"@[1]);
        assert("38fb36d9f174d40fe859d55deb429e95"@[0] != "eba8c92c7583e4309be6ad3f5e17e27e"@[0]);
        assert("72a903c5f189843248f4878232222af4"@[0] != "eba8c92c7583e4309be6ad3f5e17e27e"@[0]);
        assert("c2c38ca20a8d040139cb7369bf7be51e"@[0] != "eba8c92c7583e4309be6ad3f5e17e27e"@[0]);
        assert("c6cc840a754074fe88e9517644258dc2"@[0] != "eba8c92c7583e4309be6ad3f5e17e27e"@[0]);
        assert("e02abde8d05ec499e9a2ba7f4850c971"@[1] != "eba8c92c7583e4309be6ad3f5e17e27e"@[1]);
    }
    assert(runtime_atlas_spec(name, "fa87a551483ef4ba690410a25612e993"@) == Some("IngameAtlas3.png")) by {
        assert("04f5524815177fe408f9529a451cd50b"@[0] != "fa87a551483ef4ba690410a25612e993"@[0]);
        assert("4f58ebaf253ff4341a0acfb2cdf671e6"@[0] != "fa87a551483ef4ba690410a25612e993"@[0]);
        assert("84749b95c69414bd28c174439810c2b0"@[0] != "fa87a551483ef4ba690410a25612e993"@[0]);
        assert("9148d367fdd7f4e5382e2b9cdf74b461"@[0] != "fa87a551483ef4ba690410a25612e993"@[0]);
        assert("a286b652d38de4df384036482abc0571"@[0] != "fa87a551483ef4ba690410a25612e993"@[0]);
        assert("d96ee5bd8db944803a0071fc972963a1"@[0] != "fa87a551483ef4ba690410a25612e993"@[0]);
        assert("0bc3a371695e64987907110f53db83ec"@[0] != "fa87a551483ef4ba690410a25612e993"@[0]);
        assert("1f3758e86c0414579989dc55480b23bc"@[0] != "fa87a551483ef4ba690410a25612e993"@[0]);
        assert("a96fc7a314a89c041bb1a95fd4c281bf"@[0] != "fa87a551483ef4ba690410a25612e993"@[0]);
        assert("e0b533defb69748799a56d4ee3b4260b"@[0] != "fa87a551483ef4ba690410a25612e993"@[0]);
        assert("38fb36d9f174d40fe859d55deb429e95"@[0] != "fa87a551483ef4ba690410a25612e993"@[0]);
        assert("72a903c5f189843248f4878232222af4"@[0] != "fa87a551483ef4ba690410a25612e993"@[0]);
        assert("c2c38ca20a8d040139cb7369bf7be51e"@[0] != "fa87a551483ef4ba690410a25612e993"@[0]);
        assert("c6cc840a754074fe88e9517644258dc2"@[0] != "fa87a551483ef4ba690410a25612e993"@[0]);
        assert("e02abde8d05ec499e9a2ba7f4850c971"@[0] != "fa87a551483ef4ba690410a25612e993"@[0]);
        assert("eba8c92c7583e4309be6ad3f5e17e27e"@[0] != "fa87a551483ef4ba690410a25612e993"@[0]);
    }
    assert(runtime_atlas_spec(name, "4f53843aa7627f441a5d9e797e1745d9"@) == Some("IngameAtlas.png")) by {
        assert("04f5524815177fe408f9529a451cd50b"@[0] != "4f53843aa7627f441a5d9e797e1745d9"@[0]);
        assert("4f58ebaf253ff4341a0acfb2cdf671e6"@[3] != "4f53843aa7627f441a5d9e797e1745d9"@[3]);
        assert("84749b95c69414bd28c174439810c2b0"@[0] != "4f53843aa7627f441a5d9e797e1745d9"@[0]);
        assert("9148d367fdd7f4e5382e2b9cdf74b461"@[0] != "4f53843aa7627f441a5d9e797e1745d9"@[0]);
        assert("a286b652d38de4df384036482abc0571"@[0] != "4f53843aa7627f441a5d9e797e1745d9"@[0]);
        assert("d96ee5bd8db944803a0071fc972963a1"@[0] != "4f53843aa7627f441a5d9e797e1745d9"@[0]);
        assert("0bc3a371695e64987907110f53db83ec"@[0] != "4f53843aa7627f441a5d9e797e1745d9"@[0]);
        assert("1f3758e86c0414579989dc55480b23bc"@[0] != "4f53843aa7627f441a5d9e797e1745d9"@[0]);
        assert("a96fc7a314a89c041bb1a95fd4c281bf"@[0] != "4f53843aa7627f441a5d9e797e1745d9"@[0]);
        assert("e0b533defb69748799a56d4ee3b4260b"@[0] != "4f53843aa7627f441a5d9e797e1745d9"@[0]);
        assert("38fb36d9f174d40fe859d55deb429e95"@[0] != "4f53843aa7627f441a5d9e797e1745d9"@[0]);
        assert("72a903c5f189843248f4878232222af4"@[0] != "4f53843aa7627f441a5d9e797e1745d9"@[0]);
        assert("c2c38ca20a8d040139cb7369bf7be51e"@[0] != "4f53843aa7627f441a5d9e797e1745d9"@[0]);
        assert("c6cc840a754074fe88e9517644258dc2"@[0] != "4f53843aa7627f441a5d9e797e1745d9"@[0]);
        assert("e02abde8d05ec499e9a2ba7f4850c971"@[0] != "4f53843aa7627f441a5d9e797e1745d9"@[0]);
        assert("eba8c92c7583e4309be6ad3f5e17e27e"@[0] != "4f53843aa7627f441a5d9e797e1745d9"@[0]);
        assert("fa87a551483ef4ba690410a25612e993"@[0] != "4f53843aa7627f441a5d9e797e1745d9"@[0]);
    }
    assert(runtime_atlas_spec(name, "51f3931e706115d468eca7f64035a4df"@) == Some("IngameAtlas.png")) by {
        assert("04f5524815177fe408f9529a451cd50b"@[0] != "51f3931e706115d468eca7f64035a4df"@[0]);
        assert("4f58ebaf253ff4341a0acfb2cdf671e6"@[0] != "51f3931e706115d468eca7f64035a4df"@[0]);
        assert("84749b95c69414bd28c174439810c2b0"@[0] != "51f3931e706115d468eca7f64035a4df"@[0]);
        assert("9148d367fdd7f4e5382e2b9cdf74b461"@[0] != "51f3931e706115d468eca7f64035a4df"@[0]);
        assert("a286b652d38de4df384036482abc0571"@[0] != "51f3931e706115d468eca7f64035a4df"@[0]);
        assert("d96ee5bd8db944803a0071fc972963a1"@[0] != "51f3931e706115d468eca7f64035a4df"@[0]);
        assert("0bc3a371695e64987907110f53db83ec"@[0] != "51f3931e706115d468eca7f64035a4df"@[0]);
        assert("1f3758e86c0414579989dc55480b23bc"@[0] != "51f3931e706115d468eca7f64035a4df"@[0]);
        assert("a96fc7a314a89c041bb1a95fd4c281bf"@[0] != "51f3931e706115d468eca7f64035a4df"@[0]);
        assert("e0b533defb69748799a56d4ee3b4260b"@[0] != "51f3931e706115d468eca7f64035a4df"@[0]);
        assert("38fb36d9f174d40fe859d55deb429e95"@[0] != "51f3931e706115d468eca7f64035a4df"@[0]);
        assert("72a903c5f189843248f4878232222af4"@[0] != "51f3931e706115d468eca7f64035a4df"@[0]);
        assert("c2c38ca20a8d040139cb7369bf7be51e"@[0] != "51f3931e706115d468eca7f64035a4df"@[0]);
        assert("c6cc840a754074fe88e9517644258dc2"@[0] != "51f3931e706115d468eca7f64035a4df"@[0]);
        assert("e02abde8d05ec499e9a2ba7f4850c971"@[0] != "51f3931e706115d468eca7f64035a4df"@[0]);
        assert("eba8c92c7583e4309be6ad3f5e17e27e"@[0] != "51f3931e706115d468eca7f64035a4df"@[0]);
        assert("fa87a551483ef4ba690410a25612e993"@[0] != "51f3931e706115d468eca7f64035a4df"@[0]);
        assert("4f53843aa7627f441a5d9e797e1745d9"@[0] != "51f3931e706115d468eca7f64035a4df"@[0]);
    }
    assert(runtime_atlas_spec(name, "7844d45e898ea1441a473a80684bf4c4"@) == Some("IngameAtlas.png")) by {
        assert("04f5524815177fe408f9529a451cd50b"@[0] != "7844d45e898ea1441a473a80684bf4c4"@[0]);
        assert("4f58ebaf253ff4341a0acfb2cdf671e6"@[0] != "7844d45e898ea1441a473a80684bf4c4"@[0]);
        assert("84749b95c69414bd28c174439810c2b0"@[0] != "7844d45e898ea1441a473a80684bf4c4"@[0]);
        assert("9148d367fdd7f4e5382e2b9cdf74b461"@[0] != "7844d45e898ea1441a473a80684bf4c4"@[0]);
        assert("a286b652d38de4df384036482abc0571"@[0] != "7844d45e898ea1441a473a80684bf4c4"@[0]);
        assert("d96ee5bd8db944803a0071fc972963a1"@[0] != "7844d45e898ea1441a473a80684bf4c4"@[0]);
        assert("0bc3a371695e64987907110f53db83ec"@[0] != "7844d45e898ea1441a473a80684bf4c4"@[0]);
        assert("1f3758e86c0414579989dc55480b23bc"@[0] != "7844d45e898ea1441a473a80684bf4c4"@[0]);
        assert("a96fc7a314a89c041bb1a95fd4c281bf"@[0] != "7844d45e898ea1441a473a80684bf4c4"@[0]);
        assert("e0b533defb69748799a56d4ee3b4260b"@[0] != "7844d45e898ea1441a473a80684bf4c4"@[0]);
        assert("38fb36d9f174d40fe859d55deb429e95"@[0] != "7844d45e898ea1441a473a80684bf4c4"@[0]);
        assert("72a903c5f189843248f4878232222af4"@[1] != "7844d45e898ea1441a473a80684bf4c4"@[1]);
        assert("c2c38ca20a8d040139cb7369bf7be51e"@[0] != "7844d45e898ea1441a473a80684bf4c4"@[0]);
        assert("c6cc840a754074fe88e9517644258dc2"@[0] != "7844d45e898ea1441a473a80684bf4c4"@[0]);
        assert("e02abde8d05ec499e9a2ba7f4850c971"@[0] != "7844d45e898ea1441a473a80684bf4c4"@[0]);
        assert("eba8c92c7583e4309be6ad3f5e17e27e"@[0] != "7844d45e898ea1441a473a80684bf4c4"@[0]);
        assert("fa87a551483ef4ba690410a25612e993"@[0] != "7844d45e898ea1441a473a80684bf4c4"@[0]);
        assert("4f53843aa7627f441a5d9e797e1745d9"@[0] != "7844d45e898ea1441a473a80684bf4c4"@[0]);
        assert("51f3931e706115d468eca7f64035a4df"@[0] != "7844d45e898ea1441a473a80684bf4c4"@[0]);
    }
    assert(runtime_atlas_spec(name, "89bbb403e054f204395edd3b8fea8241"@) == Some("IngameAtlas.png")) by {
        assert("04f5524815177fe408f9529a451cd50b"@[0] != "89bbb403e054f204395edd3b8fea8241"@[0]);
        assert("4f58ebaf253ff4341a0acfb2cdf671e6"@[0] != "89bbb403e054f204395edd3b8fea8241"@[0]);
        assert("84749b95c69414bd28c174439810c2b0"@[1] != "89bbb403e054f204395edd3b8fea8241"@[1]);
        assert("9148d367fdd7f4e5382e2b9cdf74b461"@[0] != "89bbb403e054f204395edd3b8fea8241"@[0]);
        assert("a286b652d38de4df384036482abc0571"@[0] != "89bbb403e054f204395edd3b8fea8241"@[0]);
        assert("d96ee5bd8db944803a0071fc972963a1"@[0] != "89bbb403e054f204395edd3b8fea8241"@[0]);
        assert("0bc3a371695e64987907110f53db83ec"@[0] != "89bbb403e054f204395edd3b8fea8241"@[0]);
        assert("1f3758e86c0414579989dc55480b23bc"@[0] != "89bbb403e054f204395edd3b8fea8241"@[0]);
        assert("a96fc7a314a89c041bb1a95fd4c281bf"@[0] != "89bbb403e054f204395edd3b8fea8241"@[0]);
        assert("e0b533defb69748799a56d4ee3b4260b"@[0] != "89bbb403e054f204395edd3b8fea8241"@[0]);
        assert("38fb36d9f174d40fe859d55deb429e95"@[0] != "89bbb403e054f204395edd3b8fea8241"@[0]);
        assert("72a903c5f189843248f4878232222af4"@[0] != "89bbb403e054f204395edd3b8fea8241"@[0]);
        assert("c2c38ca20a8d040139cb7369bf7be51e"@[0] != "89bbb403e054f204395edd3b8fea8241"@[0]);
        assert("c6cc840a754074fe88e9517644258dc2"@[0] != "89bbb403e054f204395edd3b8fea8241"@[0]);
        assert("e02abde8d05ec499e9a2ba7f4850c971"@[0] != "89bbb403e054f204395edd3b8fea8241"@[0]);
        assert("eba8c92c7583e4309be6ad3f5e17e27e"@[0] != "89bbb403e054f204395edd3b8fea8241"@[0]);
        assert("fa87a551483ef4ba690410a25612e993"@[0] != "89bbb403e054f204395edd3b8fea8241"@[0]);
        assert("4f53843aa7627f441a5d9e797e1745d9"@[0] != "89bbb403e054f204395edd3b8fea8241"@[0]);
        assert("51f3931e706115d468eca7f64035a4df"@[0] != "89bbb403e054f204395edd3b8fea8241"@[0]);
        assert("7844d45e898ea1441a473a80684bf4c4"@[0] != "89bbb403e054f204395edd3b8fea8241"@[0]);
    }
    assert(runtime_atlas_spec(name, "bb7f816eb0cbb9f4584de6251fbc6eec"@) == Some("IngameAtlas.png")) by {
        assert("04f5524815177fe408f9529a451cd50b"@[0] != "bb7f816eb0cbb9f4584de6251fbc6eec"@[0]);
        assert("4f58ebaf253ff4341a0acfb2cdf671e6"@[0] != "bb7f816eb0cbb9f4584de6251fbc6eec"@[0]);
        assert("84749b95c69414bd28c174439810c2b0"@[0] != "bb7f816eb0cbb9f4584de6251fbc6eec"@[0]);
        assert("9148d367fdd7f4e5382e2b9cdf74b461"@[0] != "bb7f816eb0cbb9f4584de6251fbc6eec"@[0]);
        assert("a286b652d38de4df384036482abc0571"@[0] != "bb7f816eb0cbb9f4584de6251fbc6eec"@[0]);
        assert("d96ee5bd8db944803a0071fc972963a1"@[0] != "bb7f816eb0cbb9f4584de6251fbc6eec"@[0]);
        assert("0bc3a371695e64987907110f53db83ec"@[0] != "bb7f816eb0cbb9f4584de6251fbc6eec"@[0]);
        assert("1f3758e86c0414579989dc55480b23bc"@[0] != "bb7f816eb0cbb9f4584de6251fbc6eec"@[0]);
        assert("a96fc7a314a89c041bb1a95fd4c281bf"@[0] != "bb7f816eb0cbb9f4584de6251fbc6eec"@[0]);
        assert("e0b533defb69748799a56d4ee3b4260b"@[0] != "bb7f816eb0cbb9f4584de6251fbc6eec"@[0]);
        assert("38fb36d9f174d40fe859d55deb429e95"@[0] != "bb7f816eb0cbb9f4584de6251fbc6eec"@[0]);
        assert("72a903c5f189843248f4878232222af4"@[0] != "bb7f816eb0cbb9f4584de6251fbc6eec"@[0]);
        assert("c2c38ca20a8d040139cb7369bf7be51e"@[0] != "bb7f816eb0cbb9f4584de6251fbc6eec"@[0]);
        assert("c6cc840a754074fe88e9517644258dc2"@[0] != "bb7f816eb0cbb9f4584de6251fbc6eec"@[0]);
        assert("e02abde8d05ec499e9a2ba7f4850c971"@[0] != "bb7f816eb0cbb9f4584de6251fbc6eec"@[0]);
        assert("eba8c92c7583e4309be6ad3f5e17e27e"@[0] != "bb7f816eb0cbb9f4584de6251fbc6eec"@[0]);
        assert("fa87a551483ef4ba690410a25612e993"@[0] != "bb7f816eb0cbb9f4584de6251fbc6eec"@[0]);
        assert("4f53843aa7627f441a5d9e797e1745d9"@[0] != "bb7f816eb0cbb9f4584de6251fbc6eec"@[0]);
        assert("51f3931e706115d468eca7f64035a4df"@[0] != "bb7f816eb0cbb9f4584de6251fbc6eec"@[0]);
        assert("7844d45e898ea1441a473a80684bf4c4"@[0] != "bb7f816eb0cbb9f4584de6251fbc6eec"@[0]);
        assert("89bbb403e054f204395edd3b8fea8241"@[0] != "bb7f816eb0cbb9f4584de6251fbc6eec"@[0]);
    }
    assert(runtime_atlas_spec(name, "f6f09bead2bfb8c47957022817a31c85"@) == Some("IngameAtlas.png")) by {
        assert("04f5524815177fe408f9529a451cd50b"@[0] != "f6f09bead2bfb8c47957022817a31c85"@[0]);
        assert("4f58ebaf253ff4341a0acfb2cdf671e6"@[0] != "f6f09bead2bfb8c47957022817a31c85"@[0]);
        assert("84749b95c69414bd28c174439810c2b0"@[0] != "f6f09bead2bfb8c47957022817a31c85"@[0]);
        assert("9148d367fdd7f4e5382e2b9cdf74b461"@[0] != "f6f09bead2bfb8c47957022817a31c85"@[0]);
        assert("a286b652d38de4df384036482abc0571"@[0] != "f6f09bead2bfb8c47957022817a31c85"@[0]);
        assert("d96ee5bd8db944803a0071fc972963a1"@[0] != "f6f09bead2bfb8c47957022817a31c85"@[0]);
        assert("0bc3a371695e64987907110f53db83ec"@[0] != "f6f09bead2bfb8c47957022817a31c85"@[0]);
        assert("1f3758e86c0414579989dc55480b23bc"@[0] != "f6f09bead2bfb8c47957022817a31c85"@[0]);
        assert("a96fc7a314a89c041bb1a95fd4c281bf"@[0] != "f6f09bead2bfb8c47957022817a31c85"@[0]);
        assert("e0b533defb69748799a56d4ee3b4260b"@[0] != "f6f09bead2bfb8c47957022817a31c85"@[0]);
        assert("38fb36d9f174d40fe859d55deb429e95"@[0] != "f6f09bead2bfb8c47957022817a31c85"@[0]);
        assert("72a903c5f189843248f4878232222af4"@[0] != "f6f09bead2bfb8c47957022817a31c85"@[0]);
        assert("c2c38ca20a8d040139cb7369bf7be51e"@[0] != "f6f09bead2bfb8c47957022817a31c85"@[0]);
        assert("c6cc840a754074fe88e9517644258dc2"@[0] != "f6f09bead2bfb8c47957022817a31c85"@[0]);
        assert("e02abde8d05ec499e9a2ba7f4850c971"@[0] != "f6f09bead2bfb8c47957022817a31c85"@[0]);
        assert("eba8c92c7583e4309be6ad3f5e17e27e"@[0] != "f6f09bead2bfb8c47957022817a31c85"@[0]);
        assert("fa87a551483ef4ba690410a25612e993"@[1] != "f6f09bead2bfb8c47957022817a31c85"@[1]);
        assert("4f53843aa7627f441a5d9e797e1745d9"@[0] != "f6f09bead2bfb8c47957022817a31c85"@[0]);
        assert("51f3931e706115d468eca7f64035a4df"@[0] != "f6f09bead2bfb8c47957022817a31c85"@[0]);
        assert("7844d45e898ea1441a473a80684bf4c4"@[0] != "f6f09bead2bfb8c47957022817a31c85"@[0]);
        assert("89bbb403e054f204395edd3b8fea8241"@[0] != "f6f09bead2bfb8c47957022817a31c85"@[0]);
        assert("bb7f816eb0cbb9f4584de6251fbc6eec"@[0] != "f6f09bead2bfb8c47957022817a31c85"@[0]);
    }
    assert(runtime_atlas_spec(name, "f8cf0aa9b5c55c3469100b3a7044d86e"@) == Some("IngameAtlas.png")) by {
        assert("04f5524815177fe408f9529a451cd50b"@[0] != "f8cf0aa9b5c55c3469100b3a7044d86e"@[0]);
        assert("4f58ebaf253ff4341a0acfb2cdf671e6"@[0] != "f8cf0aa9b5c55c3469100b3a7044d86e"@[0]);
        assert("84749b95c69414bd28c174439810c2b0"@[0] != "f8cf0aa9b5c55c3469100b3a7044d86e"@[0]);
        assert("9148d367fdd7f4e5382e2b9cdf74b461"@[0] != "f8cf0aa9b5c55c3469100b3a7044d86e"@[0]);
        assert("a286b652d38de4df384036482abc0571"@[0] != "f8cf0aa9b5c55c3469100b3a7044d86e"@[0]);
        assert("d96ee5bd8db944803a0071fc972963a1"@[0] != "f8cf0aa9b5c55c3469100b3a7044d86e"@[0]);
        assert("0bc3a371695e64987907110f53db83ec"@[0] != "f8cf0aa9b5c55c3469100b3a7044d86e"@[0]);
        assert("1f3758e86c0414579989dc55480b23bc"@[0] != "f8cf0aa9b5c55c3469100b3a7044d86e"@[0]);
        assert("a96fc7a314a89c041bb1a95fd4c281bf"@[0] != "f8cf0aa9b5c55c3469100b3a7044d86e"@[0]);
        assert("e0b533defb69748799a56d4ee3b4260b"@[0] != "f8cf0aa9b5c55c3469100b3a7044d86e"@[0]);
        assert("38fb36d9f174d40fe859d55deb429e95"@[0] != "f8cf0aa9b5c55c3469100b3a7044d86e"@[0]);
        assert("72a903c5f189843248f4878232222af4"@[0] != "f8cf0aa9b5c55c3469100b3a7044d86e"@[0]);
        assert("c2c38ca20a8d040139cb7369bf7be51e"@[0] != "f8cf0aa9b5c55c3469100b3a7044d86e"@[0]);
        assert("c6cc840a754074fe88e9517644258dc2"@[0] != "f8cf0aa9b5c55c3469100b3a7044d86e"@[0]);
        assert("e02abde8d05ec499e9a2ba7f4850c971"@[0] != "f8cf0aa9b5c55c3469100b3a7044d86e"@[0]);
        assert("eba8c92c7583e4309be6ad3f5e17e27e"@[0] != "f8cf0aa9b5c55c3469100b3a7044d86e"@[0]);
        assert("fa87a551483ef4ba690410a25612e993"@[1] != "f8cf0aa9b5c55c3469100b3a7044d86e"@[1]);
        assert("4f53843aa7627f441a5d9e797e1745d9"@[0] != "f8cf0aa9b5c55c3469100b3a7044d86e"@[0]);
        assert("51f3931e706115d468eca7f64035a4df"@[0] != "f8cf0aa9b5c55c3469100b3a7044d86e"@[0]);
        assert("7844d45e898ea1441a473a80684bf4c4"@[0] != "f8cf0aa9b5c55c3469100b3a7044d86e"@[0]);
        assert("89bbb403e054f204395edd3b8fea8241"@[0] != "f8cf0aa9b5c55c3469100b3a7044d86e"@[0]);
        assert("bb7f816eb0cbb9f4584de6251fbc6eec"@[0] != "f8cf0aa9b5c55c3469100b3a7044d86e"@[0]);
        assert("f6f09bead2bfb8c47957022817a31c85"@[1] != "f8cf0aa9b5c55c3469100b3a7044d86e"@[1]);
    }
    assert(runtime_atlas_spec(name, "bfa953ce5fc274b6faa59deca6579361"@) == Some("Ingame_Sheet_04.png")) by {
        assert("04f5524815177fe408f9529a451cd50b"@[0] != "bfa953ce5fc274b6faa59deca6579361"@[0]);
        assert("4f58ebaf253ff4341a0acfb2cdf671e6"@[0] != "bfa953ce5fc274b6faa59deca6579361"@[0]);
        assert("84749b95c69414bd28c174439810c2b0"@[0] != "bfa953ce5fc274b6faa59deca6579361"@[0]);
        assert("9148d367fdd7f4e5382e2b9cdf74b461"@[0] != "bfa953ce5fc274b6faa59deca6579361"@[0]);
        assert("a286b652d38de4df384036482abc0571"@[0] != "bfa953ce5fc274b6faa59deca6579361"@[0]);
        assert("d96ee5bd8db944803a0071fc972963a1"@[0] != "bfa953ce5fc274b6faa59deca6579361"@[0]);
        assert("0bc3a371695e64987907110f53db83ec"@[0] != "bfa953ce5fc274b6faa59deca6579361"@[0]);
        assert("1f3758e86c0414579989dc55480b23bc"@[0] != "bfa953ce5fc274b6faa59deca6579361"@[0]);
        assert("a96fc7a314a89c041bb1a95fd4c281bf"@[0] != "bfa953ce5fc274b6faa59deca6579361"@[0]);
        assert("e0b533defb69748799a56d4ee3b4260b"@[0] != "bfa953ce5fc274b6faa59deca6579361"@[0]);
        assert("38fb36d9f174d40fe859d55deb429e95"@[0] != "bfa953ce5fc274b6faa59deca6579361"@[0]);
        assert("72a903c5f189843248f4878232222af4"@[0] != "bfa953ce5fc274b6faa59deca6579361"@[0]);
        assert("c2c38ca20a8d040139cb7369bf7be51e"@[0] != "bfa953ce5fc274b6faa59deca6579361"@[0]);
        assert("c6cc840a754074fe88e9517644258dc2"@[0] != "bfa953ce5fc274b6faa59deca6579361"@[0]);
        assert("e02abde8d05ec499e9a2ba7f4850c971"@[0] != "bfa953ce5fc274b6faa59deca6579361"@[0]);
        assert("eba8c92c7583e4309be6ad3f5e17e27e"@[0] != "bfa953ce5fc274b6faa59deca6579361"@[0]);
        assert("fa87a551483ef4ba690410a25612e993"@[0] != "bfa953ce5fc274b6faa59deca6579361"@[0]);
        assert("4f53843aa7627f441a5d9e797e1745d9"@[0] != "bfa953ce5fc274b6faa59deca6579361"@[0]);
        assert("51f3931e706115d468eca7f64035a4df"@[0] != "bfa953ce5fc274b6faa59deca6579361"@[0]);
        assert("7844d45e898ea1441a473a80684bf4c4"@[0] != "bfa953ce5fc274b6faa59deca6579361"@[0]);
        assert("89bbb403e054f204395edd3b8fea8241"@[0] != "bfa953ce5fc274b6faa59deca6579361"@[0]);
        assert("bb7f816eb0cbb9f4584de6251fbc6eec"@[1] != "bfa953ce5fc274b6faa59deca6579361"@[1]);
        assert("f6f09bead2bfb8c47957022817a31c85"@[0] != "bfa953ce5fc274b6faa59deca6579361"@[0]);
        assert("f8cf0aa9b5c55c3469100b3a7044d86e"@[0] != "bfa953ce5fc274b6faa59deca6579361"@[0]);
    }
    assert(runtime_atlas_spec(name, "f300c561f75e74380a11f80d4d2647f3"@) == Some("Ingame_Sheet_04.png")) by {
        assert("04f5524815177fe408f9529a451cd50b"@[0] != "f300c561f75e74380a11f80d4d2647f3"@[0]);
        assert("4f58ebaf253ff4341a0acfb2cdf671e6"@[0] != "f300c561f75e74380a11f80d4d2647f3"@[0]);
        assert("84749b95c69414bd28c174439810c2b0"@[0] != "f300c561f75e74380a11f80d4d2647f3"@[0]);
        assert("9148d367fdd7f4e5382e2b9cdf74b461"@[0] != "f300c561f75e74380a11f80d4d2647f3"@[0]);
        assert("a286b652d38de4df384036482abc0571"@[0] != "f300c561f75e74380a11f80d4d2647f3"@[0]);
        assert("d96ee5bd8db944803a0071fc972963a1"@[0] != "f300c561f75e74380a11f80d4d2647f3"@[0]);
        assert("0bc3a371695e64987907110f53db83ec"@[0] != "f300c561f75e74380a11f80d4d2647f3"@[0]);
        assert("1f3758e86c0414579989dc55480b23bc"@[0] != "f300c561f75e74380a11f80d4d2647f3"@[0]);
        assert("a96fc7a314a89c041bb1a95fd4c281bf"@[0] != "f300c561f75e74380a11f80d4d2647f3"@[0]);
        assert("e0b533defb69748799a56d4ee3b4260b"@[0] != "f300c561f75e74380a11f80d4d2647f3"@[0]);
        assert("38fb36d9f174d40fe859d55deb429e95"@[0] != "f300c561f75e74380a11f80d4d2647f3"@[0]);
        assert("72a903c5f189843248f4878232222af4"@[0] != "f300c561f75e74380a11f80d4d2647f3"@[0]);
        assert("c2c38ca20a8d040139cb7369bf7be51e"@[0] != "f300c561f75e74380a11f80d4d2647f3"@[0]);
        assert("c6cc840a754074fe88e9517644258dc2"@[0] != "f300c561f75e74380a11f80d4d2647f3"@[0]);
        assert("e02abde8d05ec499e9a2ba7f4850c971"@[0] != "f300c561f75e74380a11f80d4d2647f3"@[0]);
        assert("eba8c92c7583e4309be6ad3f5e17e27e"@[0] != "f300c561f75e74380a11f80d4d2647f3"@[0]);
        assert("fa87a551483ef4ba690410a25612e993"@[1] != "f300c561f75e74380a11f80d4d2647f3"@[1]);
        assert("4f53843aa7627f441a5d9e797e1745d9"@[0] != "f300c561f75e74380a11f80d4d2647f3"@[0]);
        assert("51f3931e706115d468eca7f64035a4df"@[0] != "f300c561f75e74380a11f80d4d2647f3"@[0]);
        assert("7844d45e898ea1441a473a80684bf4c4"@[0] != "f300c561f75e74380a11f80d4d2647f3"@[0]);
        assert("89bbb403e054f204395edd3b8fea8241"@[0] != "f300c561f75e74380a11f80d4d2647f3"@[0]);
        assert("bb7f816eb0cbb9f4584de6251fbc6eec"@[0] != "f300c561f75e74380a11f80d4d2647f3"@[0]);
        assert("f6f09bead2bfb8c47957022817a31c85"@[1] != "f300c561f75e74380a11f80d4d2647f3"@[1]);
        assert("f8cf0aa9b5c55c3469100b3a7044d86e"@[1] != "f300c561f75e74380a11f80d4d2647f3"@[1]);
        assert("bfa953ce5fc274b6faa59deca6579361"@[0] != "f300c561f75e74380a11f80d4d2647f3"@[0]);
    }
    assert(runtime_atlas_spec("LevelRowUnlockPanel"@, "1dc9819db44b840edb8cdec9ef7b80c2"@) == Some("Ingame_Sheet_04.png")) by {
        assert("04f5524815177fe408f9529a451cd50b"@[0] != "1dc9819db44b840edb8cdec9ef7b80c2"@[0]);
        assert("4f58ebaf253ff4341a0acfb2cdf671e6"@[0] != "1dc9819db44b840edb8cdec9ef7b80c2"@[0]);
        assert("84749b95c69414bd28c174439810c2b0"@[0] != "1dc9819db44b840edb8cdec9ef7b80c2"@[0]);
        assert("9148d367fdd7f4e5382e2b9cdf74b461"@[0] != "1dc9819db44b840edb8cdec9ef7b80c2"@[0]);
        assert("a286b652d38de4df384036482abc0571"@[0] != "1dc9819db44b840edb8cdec9ef7b80c2"@[0]);
        assert("d96ee5bd8db944803a0071fc972963a1"@[0] != "1dc9819db44b840edb8cdec9ef7b80c2"@[0]);
        assert("0bc3a371695e64987907110f53db83ec"@[0] != "1dc9819db44b840edb8cdec9ef7b80c2"@[0]);
        assert("1f3758e86c0414579989dc55480b23bc"@[1] != "1dc9819db44b840edb8cdec9ef7b80c2"@[1]);
        assert("a96fc7a314a89c041bb1a95fd4c281bf"@[0] != "1dc9819db44b840edb8cdec9ef7b80c2"@[0]);
        assert("e0b533defb69748799a56d4ee3b4260b"@[0] != "1dc9819db44b840edb8cdec9ef7b80c2"@[0]);
        assert("38fb36d9f174d40fe859d55deb429e95"@[0] != "1dc9819db44b840edb8cdec9ef7b80c2"@[0]);
        assert("72a903c5f189843248f4878232222af4"@[0] != "1dc9819db44b840edb8cdec9ef7b80c2"@[0]);
        assert("c2c38ca20a8d040139cb7369bf7be51e"@[0] != "1dc9819db44b840edb8cdec9ef7b80c2"@[0]);
        assert("c6cc840a754074fe88e9517644258dc2"@[0] != "1dc9819db44b840edb8cdec9ef7b80c2"@[0]);
        assert("e02abde8d05ec499e9a2ba7f4850c971"@[0] != "1dc9819db44b840edb8cdec9ef7b80c2"@[0]);
        assert("eba8c92c7583e4309be6ad3f5e17e27e"@[0] != "1dc9819db44b840edb8cdec9ef7b80c2"@[0]);
        assert("fa87a551483ef4ba690410a25612e993"@[0] != "1dc9819db44b840edb8cdec9ef7b80c2"@[0]);
        assert("4f53843aa7627f441a5d9e797e1745d9"@[0] != "1dc9819db44b840edb8cdec9ef7b80c2"@[0]);
        assert("51f3931e706115d468eca7f64035a4df"@[0] != "1dc9819db44b840edb8cdec9ef7b80c2"@[0]);
        assert("7844d45e898ea1441a473a80684bf4c4"@[0] != "1dc9819db44b840edb8cdec9ef7b80c2"@[0]);
        assert("89bbb403e054f204395edd3b8fea8241"@[0] != "1dc9819db44b840edb8cdec9ef7b80c2"@[0]);
        assert("bb7f816eb0cbb9f4584de6251fbc6eec"@[0] != "1dc9819db44b840edb8cdec9ef7b80c2"@[0]);
        assert("f6f09bead2bfb8c47957022817a31c85"@[0] != "1dc9819db44b840edb8cdec9ef7b80c2"@[0]);
        assert("f8cf0aa9b5c55c3469100b3a7044d86e"@[0] != "1dc9819db44b840edb8cdec9ef7b80c2"@[0]);
        assert("bfa953ce5fc274b6faa59deca6579361"@[0] != "1dc9819db44b840edb8cdec9ef7b80c2"@[0]);
        assert("f300c561f75e74380a11f80d4d2647f3"@[0] != "1dc9819db44b840edb8cdec9ef7b80c2"@[0]);
    }
    assert(name != "LevelRowUnlockPanel"@ ==> runtime_atlas_spec(name, "1dc9819db44b840edb8cdec9ef7b80c2"@) == Some("Ingame_Characters_Sheet_01.png")) by {
        assert("04f5524815177fe408f9529a451cd50b"@[0] != "1dc9819db44b840edb8cdec9ef7b80c2"@[0]);
        assert("4f58ebaf253ff4341a0acfb2cdf671e6"@[0] != "1dc9819db44b840edb8cdec9ef7b80c2"@[0]);
        assert("84749b95c69414bd28c174439810c2b0"@[0] != "1dc9819db44b840edb8cdec9ef7b80c2"@[0]);
        assert("9148d367fdd7f4e5382e2b9cdf74b461"@[0] != "1dc9819db44b840edb8cdec9ef7b80c2"@[0]);
        assert("a286b652d38de4df384036482abc0571"@[0] != "1dc9819db44b840edb8cdec9ef7b80c2"@[0]);
        assert("d96ee5bd8db944803a0071fc972963a1"@[0] != "1dc9819db44b840edb8cdec9ef7b80c2"@[0]);
        assert("0bc3a371695e64987907110f53db83ec"@[0] != "1dc9819db44b840edb8cdec9ef7b80c2"@[0]);
        assert("1f3758e86c0414579989dc55480b23bc"@[1] != "1dc9819db44b840edb8cdec9ef7b80c2"@[1]);
        assert("a96fc7a314a89c041bb1a95fd4c281bf"@[0] != "1dc9819db44b840edb8cdec9ef7b80c2"@[0]);
        assert("e0b533defb69748799a56d4ee3b4260b"@[0] != "1dc9819db44b840edb8cdec9ef7b80c2"@[0]);
        assert("38fb36d9f174d40fe859d55deb429e95"@[0] != "1dc9819db44b840edb8cdec9ef7b80c2"@[0]);
        assert("72a903c5f189843248f4878232222af4"@[0] != "1dc9819db44b840edb8cdec9ef7b80c2"@[0]);
        assert("c2c38ca20a8d040139cb7369bf7be51e"@[0] != "1dc9819db44b840edb8cdec9ef7b80c2"@[0]);
        assert("c6cc840a754074fe88e9517644258dc2"@[0] != "1dc9819db44b840edb8cdec9ef7b80c2"@[0]);
        assert("e02abde8d05ec499e9a2ba7f4850c971"@[0] != "1dc9819db44b840edb8cdec9ef7b80c2"@[0]);
        assert("eba8c92c7583e4309be6ad3f5e17e27e"@[0] != "1dc9819db44b840edb8cdec9ef7b80c2"@[0]);
        assert("fa87a551483ef4ba690410a25612e993"@[0] != "1dc9819db44b840edb8cdec9ef7b80c2"@[0]);
        assert("4f53843aa7627f441a5d9e797e1745d9"@[0] != "1dc9819db44b840edb8cdec9ef7b80c2"@[0]);
        assert("51f3931e706115d468eca7f64035a4df"@[0] != "1dc9819db44b840edb8cdec9ef7b80c2"@[0]);
        assert("7844d45e898ea1441a473a80684bf4c4"@[0] != "1dc9819db44b840edb8cdec9ef7b80c2"@[0]);
        assert("89bbb403e054f204395edd3b8fea8241"@[0] != "1dc9819db44b840edb8cdec9ef7b80c2"@[0]);
        assert("bb7f816eb0cbb9f4584de6251fbc6eec"@[0] != "1dc9819db44b840edb8cdec9ef7b80c2"@[0]);
        assert("f6f09bead2bfb8c47957022817a31c85"@[0] != "1dc9819db44b840edb8cdec9ef7b80c2"@[0]);
        assert("f8cf0aa9b5c55c3469100b3a7044d86e"@[0] != "1dc9819db44b840edb8cdec9ef7b80c2"@[0]);
        assert("bfa953ce5fc274b6faa59deca6579361"@[0] != "1dc9819db44b840edb8cdec9ef7b80c2"@[0]);
        assert("f300c561f75e74380a11f80d4d2647f3"@[0] != "1dc9819db44b840edb8cdec9ef7b80c2"@[0]);
    }
    assert(runtime_atlas_spec("GridCell"@, "20936c462fac24dbb967c450f9cb0cb4"@) == Some("IngameAtlas2.png")) by {
        assert("04f5524815177fe408f9529a451cd50b"@[0] != "20936c462fac24dbb967c450f9cb0cb4"@[0]);
        assert("4f58ebaf253ff4341a0acfb2cdf671e6"@[0] != "20936c462fac24dbb967c450f9cb0cb4"@[0]);
        assert("84749b95c69414bd28c174439810c2b0"@[0] != "20936c462fac24dbb967c450f9cb0cb4"@[0]);
        assert("9148d367fdd7f4e5382e2b9cdf74b461"@[0] != "20936c462fac24dbb967c450f9cb0cb4"@[0]);
        assert("a286b652d38de4df384036482abc0571"@[0] != "20936c462fac24dbb967c450f9cb0cb4"@[0]);
        assert("d96ee5bd8db944803a0071fc972963a1"@[0] != "20936c462fac24dbb967c450f9cb0cb4"@[0]);
        assert("0bc3a371695e64987907110f53db83ec"@[0] != "20936c462fac24dbb967c450f9cb0cb4"@[0]);
        assert("1f3758e86c0414579989dc55480b23bc"@[0] != "20936c462fac24dbb967c450f9cb0cb4"@[0]);
        assert("a96fc7a314a89c041bb1a95fd4c281bf"@[0] != "20936c462fac24dbb967c450f9cb0cb4"@[0]);
        assert("e0b533defb69748799a56d4ee3b4260b"@[0] != "20936c462fac24dbb967c450f9cb0cb4"@[0]);
        assert("38fb36d9f174d40fe859d55deb429e95"@[0] != "20936c462fac24dbb967c450f9cb0cb4"@[0]);
        assert("72a903c5f189843248f4878232222af4"@[0] != "20936c462fac24dbb967c450f9cb0cb4"@[0]);
        assert("c2c38ca20a8d040139cb7369bf7be51e"@[0] != "20936c462fac24dbb967c450f9cb0cb4"@[0]);
        assert("c6cc840a754074fe88e9517644258dc2"@[0] != "20936c462fac24dbb967c450f9cb0cb4"@[0]);
        assert("e02abde8d05ec499e9a2ba7f4850c971"@[0] != "20936c462fac24dbb967c450f9cb0cb4"@[0]);
        assert("eba8c92c7583e4309be6ad3f5e17e27e"@[0] != "20936c462fac24dbb967c450f9cb0cb4"@[0]);
        assert("fa87a551483ef4ba690410a25612e993"@[0] != "20936c462fac24dbb967c450f9cb0cb4"@[0]);
        assert("4f53843aa7627f441a5d9e797e1745d9"@[0] != "20936c462fac24dbb967c450f9cb0cb4"@[0]);
        assert("51f3931e706115d468eca7f64035a4df"@[0] != "20936c462fac24dbb967c450f9cb0cb4"@[0]);
        assert("7844d45e898ea1441a473a80684bf4c4"@[0] != "20936c462fac24dbb967c450f9cb0cb4"@[0]);
        assert("89bbb403e054f204395edd3b8fea8241"@[0] != "20936c462fac24dbb967c450f9cb0cb4"@[0]);
        assert("bb7f816eb0cbb9f4584de6251fbc6eec"@[0] != "20936c462fac24dbb967c450f9cb0cb4"@[0]);
        assert("f6f09bead2bfb8c47957022817a31c85"@[0] != "20936c462fac24dbb967c450f9cb0cb4"@[0]);
        assert("f8cf0aa9b5c55c3469100b3a7044d86e"@[0] != "20936c462fac24dbb967c450f9cb0cb4"@[0]);
        assert("bfa953ce5fc274b6faa59deca6579361"@[0] != "20936c462fac24dbb967c450f9cb0cb4"@[0]);
        assert("f300c561f75e74380a11f80d4d2647f3"@[0] != "20936c462fac24dbb967c450f9cb0cb4"@[0]);
        assert("1dc9819db44b840edb8cdec9ef7b80c2"@[0] != "20936c462fac24dbb967c450f9cb0cb4"@[0]);
    }
    assert(name != "GridCell"@ ==> runtime_atlas_spec(name, "20936c462fac24dbb967c450f9cb0cb4"@) == Some("Ingame_Characters_Sheet_01.png")) by {
        assert("04f5524815177fe408f9529a451cd50b"@[0] != "20936c462fac24dbb967c450f9cb0cb4"@[0]);
        assert("4f58ebaf253ff4341a0acfb2cdf671e6"@[0] != "20936c462fac24dbb967c450f9cb0cb4"@[0]);
        assert("84749b95c69414bd28c174439810c2b0"@[0] != "20936c462fac24dbb967c450f9cb0cb4"@[0]);
        assert("9148d367fdd7f4e5382e2b9cdf74b461"@[0] != "20936c462fac24dbb967c450f9cb0cb4"@[0]);
        assert("a286b652d38de4df384036482abc0571"@[0] != "20936c462fac24dbb967c450f9cb0cb4"@[0]);
        assert("d96ee5bd8db944803a0071fc972963a1"@[0] != "20936c462fac24dbb967c450f9cb0cb4"@[0]);
        assert("0bc3a371695e64987907110f53db83ec"@[0] != "20936c462fac24dbb967c450f9cb0cb4"@[0]);
        assert("1f3758e86c0414579989dc55480b23bc"@[0] != "20936c462fac24dbb967c450f9cb0cb4"@[0]);
        assert("a96fc7a314a89c041bb1a95fd4c281bf"@[0] != "20936c462fac24dbb967c450f9cb0cb4"@[0]);
        assert("e0b533defb69748799a56d4ee3b4260b"@[0] != "20936c462fac24dbb967c450f9cb0cb4"@[0]);
        assert("38fb36d9f174d40fe859d55deb429e95"@[0] != "20936c462fac24dbb967c450f9cb0cb4"@[0]);
        assert("72a903c5f189843248f4878232222af4"@[0] != "20936c462fac24dbb967c450f9cb0cb4"@[0]);
        assert("c2c38ca20a8d040139cb7369bf7be51e"@[0] != "20936c462fac24dbb967c450f9cb0cb4"@[0]);
        assert("c6cc840a754074fe88e9517644258dc2"@[0] != "20936c462fac24dbb967c450f9cb0cb4"@[0]);
        assert("e02abde8d05ec499e9a2ba7f4850c971"@[0] != "20936c462fac24dbb967c450f9cb0cb4"@[0]);
        assert("eba8c92c7583e4309be6ad3f5e17e27e"@[0] != "20936c462fac24dbb967c450f9cb0cb4"@[0]);
        assert("fa87a551483ef4ba690410a25612e993"@[0] != "20936c462fac24dbb967c450f9cb0cb4"@[0]);
        assert("4f53843aa7627f441a5d9e797e1745d9"@[0] != "20936c462fac24dbb967c450f9cb0cb4"@[0]);
        assert("51f3931e706115d468eca7f64035a4df"@[0] != "20936c462fac24dbb967c450f9cb0cb4"@[0]);
        assert("7844d45e898ea1441a473a80684bf4c4"@[0] != "20936c462fac24dbb967c450f9cb0cb4"@[0]);
        assert("89bbb403e054f204395edd3b8fea8241"@[0] != "20936c462fac24dbb967c450f9cb0cb4"@[0]);
        assert("bb7f816eb0cbb9f4584de6251fbc6eec"@[0] != "20936c462fac24dbb967c450f9cb0cb4"@[0]);
        assert("f6f09bead2bfb8c47957022817a31c85"@[0] != "20936c462fac24dbb967c450f9cb0cb4"@[0]);
        assert("f8cf0aa9b5c55c3469100b3a7044d86e"@[0] != "20936c462fac24dbb967c450f9cb0cb4"@[0]);
        assert("bfa953ce5fc274b6faa59deca6579361"@[0] != "20936c462fac24dbb967c450f9cb0cb4"@[0]);
        assert("f300c561f75e74380a11f80d4d2647f3"@[0] != "20936c462fac24dbb967c450f9cb0cb4"@[0]);
        assert("1dc9819db44b840edb8cdec9ef7b80c2"@[0] != "20936c462fac24dbb967c450f9cb0cb4"@[0]);
    }
    assert(runtime_atlas_spec("DailyChallengeDialog"@, "32e759dd981a043fa8fbcfd4997143ea"@) == Some("Ingame_Sheet_04.png")) by {
        assert("04f5524815177fe408f9529a451cd50b"@[0] != "32e759dd981a043fa8fbcfd4997143ea"@[0]);
        assert("4f58ebaf253ff4341a0acfb2cdf671e6"@[0] != "32e759dd981a043fa8fbcfd4997143ea"@[0]);
        assert("84749b95c69414bd28c174439810c2b0"@[0] != "32e759dd981a043fa8fbcfd4997143ea"@[0]);
        assert("9148d367fdd7f4e5382e2b9cdf74b461"@[0] != "32e759dd981a043fa8fbcfd4997143ea"@[0]);
        assert("a286b652d38de4df384036482abc0571"@[0] != "32e759dd981a043fa8fbcfd4997143ea"@[0]);
        assert("d96ee5bd8db944803a0071fc972963a1"@[0] != "32e759dd981a043fa8fbcfd4997143ea"@[0]);
        assert("0bc3a371695e64987907110f53db83ec"@[0] != "32e759dd981a043fa8fbcfd4997143ea"@[0]);
        assert("1f3758e86c0414579989dc55480b23bc"@[0] != "32e759dd981a043fa8fbcfd4997143ea"@[0]);
        assert("a96fc7a314a89c041bb1a95fd4c281bf"@[0] != "32e759dd981a043fa8fbcfd4997143ea"@[0]);
        assert("e0b533defb69748799a56d4ee3b4260b"@[0] != "32e759dd981a043fa8fbcfd4997143ea"@[0]);
        assert("38fb36d9f174d40fe859d55deb429e95"@[1] != "32e759dd981a043fa8fbcfd4997143ea"@[1]);
        assert("72a903c5f189843248f4878232222af4"@[0] != "32e759dd981a043fa8fbcfd4997143ea"@[0]);
        assert("c2c38ca20a8d040139cb7369bf7be51e"@[0] != "32e759dd981a043fa8fbcfd4997143ea"@[0]);
        assert("c6cc840a754074fe88e9517644258dc2"@[0] != "32e759dd981a043fa8fbcfd4997143ea"@[0]);
        assert("e02abde8d05ec499e9a2ba7f4850c971"@[0] != "32e759dd981a043fa8fbcfd4997143ea"@[0]);
        assert("eba8c92c7583e4309be6ad3f5e17e27e"@[0] != "32e759dd981a043fa8fbcfd4997143ea"@[0]);
        assert("fa87a551483ef4ba690410a25612e993"@[0] != "32e759dd981a043fa8fbcfd4997143ea"@[0]);
        assert("4f53843aa7627f441a5d9e797e1745d9"@[0] != "32e759dd981a043fa8fbcfd4997143ea"@[0]);
        assert("51f3931e706115d468eca7f64035a4df"@[0] != "32e759dd981a043fa8fbcfd4997143ea"@[0]);
        assert("7844d45e898ea1441a473a80684bf4c4"@[0] != "32e759dd981a043fa8fbcfd4997143ea"@[0]);
        assert("89bbb403e054f204395edd3b8fea8241"@[0] != "32e759dd981a043fa8fbcfd4997143ea"@[0]);
        assert("bb7f816eb0cbb9f4584de6251fbc6eec"@[0] != "32e759dd981a043fa8fbcfd4997143ea"@[0]);
        assert("f6f09bead2bfb8c47957022817a31c85"@[0] != "32e759dd981a043fa8fbcfd4997143ea"@[0]);
        assert("f8cf0aa9b5c55c3469100b3a7044d86e"@[0] != "32e759dd981a043fa8fbcfd4997143ea"@[0]);
        assert("bfa953ce5fc274b6faa59deca6579361"@[0] != "32e759dd981a043fa8fbcfd4997143ea"@[0]);
        assert("f300c561f75e74380a11f80d4d2647f3"@[0] != "32e759dd981a043fa8fbcfd4997143ea"@[0]);
        assert("1dc9819db44b840edb8cdec9ef7b80c2"@[0] != "32e759dd981a043fa8fbcfd4997143ea"@[0]);
        assert("20936c462fac24dbb967c450f9cb0cb4"@[0] != "32e759dd981a043fa8fbcfd4997143ea"@[0]);
    }
    assert(runtime_atlas_spec("LeaderboardDialog"@, "32e759dd981a043fa8fbcfd4997143ea"@) == Some("Ingame_Sheet_04.png")) by {
        assert("04f5524815177fe408f9529a451cd50b"@[0] != "32e759dd981a043fa8fbcfd4997143ea"@[0]);
        assert("4f58ebaf253ff4341a0acfb2cdf671e6"@[0] != "32e759dd981a043fa8fbcfd4997143ea"@[0]);
        assert("84749b95c69414bd28c174439810c2b0"@[0] != "32e759dd981a043fa8fbcfd4997143ea"@[0]);
        assert("9148d367fdd7f4e5382e2b9cdf74b461"@[0] != "32e759dd981a043fa8fbcfd4997143ea"@[0]);
        assert("a286b652d38de4df384036482abc0571"@[0] != "32e759dd981a043fa8fbcfd4997143ea"@[0]);
        assert("d96ee5bd8db944803a0071fc972963a1"@[0] != "32e759dd981a043fa8fbcfd4997143ea"@[0]);
        assert("0bc3a371695e64987907110f53db83ec"@[0] != "32e759dd981a043fa8fbcfd4997143ea"@[0]);
        assert("1f3758e86c0414579989dc55480b23bc"@[0] != "32e759dd981a043fa8fbcfd4997143ea"@[0]);
        assert("a96fc7a314a89c041bb1a95fd4c281bf"@[0] != "32e759dd981a043fa8fbcfd4997143ea"@[0]);
        assert("e0b533defb69748799a56d4ee3b4260b"@[0] != "32e759dd981a043fa8fbcfd4997143ea"@[0]);
        assert("38fb36d9f174d40fe859d55deb429e95"@[1] != "32e759dd981a043fa8fbcfd4997143ea"@[1]);
        assert("72a903c5f189843248f4878232222af4"@[0] != "32e759dd981a043fa8fbcfd4997143ea"@[0]);
        assert("c2c38ca20a8d040139cb7369bf7be51e"@[0] != "32e759dd981a043fa8fbcfd4997143ea"@[0]);
        assert("c6cc840a754074fe88e9517644258dc2"@[0] != "32e759dd981a043fa8fbcfd4997143ea"@[0]);
        assert("e02abde8d05ec499e9a2ba7f4850c971"@[0] != "32e759dd981a043fa8fbcfd4997143ea"@[0]);
        assert("eba8c92c7583e4309be6ad3f5e17e27e"@[0] != "32e759dd981a043fa8fbcfd4997143ea"@[0]);
        assert("fa87a551483ef4ba690410a25612e993"@[0] != "32e759dd981a043fa8fbcfd4997143ea"@[0]);
        assert("4f53843aa7627f441a5d9e797e1745d9"@[0] != "32e759dd981a043fa8fbcfd4997143ea"@[0]);
        assert("51f3931e706115d468eca7f64035a4df"@[0] != "32e759dd981a043fa8fbcfd4997143ea"@[0]);
        assert("7844d45e898ea1441a473a80684bf4c4"@[0] != "32e759dd981a043fa8fbcfd4997143ea"@[0]);
        assert("89bbb403e054f204395edd3b8fea8241"@[0] != "32e759dd981a043fa8fbcfd4997143ea"@[0]);
        assert("bb7f816eb0cbb9f4584de6251fbc6eec"@[0] != "32e759dd981a043fa8fbcfd4997143ea"@[0]);
        assert("f6f09bead2bfb8c47957022817a31c85"@[0] != "32e759dd981a043fa8fbcfd4997143ea"@[0]);
        assert("f8cf0aa9b5c55c3469100b3a7044d86e"@[0] != "32e759dd981a043fa8fbcfd4997143ea"@[0]);
        assert("bfa953ce5fc274b6faa59deca6579361"@[0] != "32e759dd981a043fa8fbcfd4997143ea"@[0]);
        assert("f300c561f75e74380a11f80d4d2647f3"@[0] != "32e759dd981a043fa8fbcfd4997143ea"@[0]);
        assert("1dc9819db44b840edb8cdec9ef7b80c2"@[0] != "32e759dd981a043fa8fbcfd4997143ea"@[0]);
        assert("20936c462fac24dbb967c450f9cb0cb4"@[0] != "32e759dd981a043fa8fbcfd4997143ea"@[0]);
    }
    assert(runtime_atlas_spec("SeasonEndDialog"@, "32e759dd981a043fa8fbcfd4997143ea"@) == Some("Ingame_Sheet_04.png")) by {
        assert("04f5524815177fe408f9529a451cd50b"@[0] != "32e759dd981a043fa8fbcfd4997143ea"@[0]);
        assert("4f58ebaf253ff4341a0acfb2cdf671e6"@[0] != "32e759dd981a043fa8fbcfd4997143ea"@[0]);
        assert("84749b95c69414bd28c174439810c2b0"@[0] != "32e759dd981a043fa8fbcfd4997143ea"@[0]);
        assert("9148d367fdd7f4e5382e2b9cdf74b461"@[0] != "32e759dd981a043fa8fbcfd4997143ea"@[0]);
        assert("a286b652d38de4df384036482abc0571"@[0] != "32e759dd981a043fa8fbcfd4997143ea"@[0]);
        assert("d96ee5bd8db944803a0071fc972963a1"@[0] != "32e759dd981a043fa8fbcfd4997143ea"@[0]);
        assert("0bc3a371695e64987907110f53db83ec"@[0] != "32e759dd981a043fa8fbcfd4997143ea"@[0]);
        assert("1f3758e86c0414579989dc55480b23bc"@[0] != "32e759dd981a043fa8fbcfd4997143ea"@[0]);
        assert("a96fc7a314a89c041bb1a95fd4c281bf"@[0] != "32e759dd981a043fa8fbcfd4997143ea"@[0]);
        assert("e0b533defb69748799a56d4ee3b4260b"@[0] != "32e759dd981a043fa8fbcfd4997143ea"@[0]);
        assert("38fb36d9f174d40fe859d55deb429e95"@[1] != "32e759dd981a043fa8fbcfd4997143ea"@[1]);
        assert("72a903c5f189843248f4878232222af4"@[0] != "32e759dd981a043fa8fbcfd4997143ea"@[0]);
        assert("c2c38ca20a8d040139cb7369bf7be51e"@[0] != "32e759dd981a043fa8fbcfd4997143ea"@[0]);
        assert("c6cc840a754074fe88e9517644258dc2"@[0] != "32e759dd981a043fa8fbcfd4997143ea"@[0]);
        assert("e02abde8d05ec499e9a2ba7f4850c971"@[0] != "32e759dd981a043fa8fbcfd4997143ea"@[0]);
        assert("eba8c92c7583e4309be6ad3f5e17e27e"@[0] != "32e759dd981a043fa8fbcfd4997143ea"@[0]);
        assert("fa87a551483ef4ba690410a25612e993"@[0] != "32e759dd981a043fa8fbcfd4997143ea"@[0]);
        assert("4f53843aa7627f441a5d9e797e1745d9"@[0] != "32e759dd981a043fa8fbcfd4997143ea"@[0]);
        assert("51f3931e706115d468eca7f64035a4df"@[0] != "32e759dd981a043fa8fbcfd4997143ea"@[0]);
        assert("7844d45e898ea1441a473a80684bf4c4"@[0] != "32e759dd981a043fa8fbcfd4997143ea"@[0]);
        assert("89bbb403e054f204395edd3b8fea8241"@[0] != "32e759dd981a043fa8fbcfd4997143ea"@[0]);
        assert("bb7f816eb0cbb9f4584de6251fbc6eec"@[0] != "32e759dd981a043fa8fbcfd4997143ea"@[0]);
        assert("f6f09bead2bfb8c47957022817a31c85"@[0] != "32e759dd981a043fa8fbcfd4997143ea"@[0]);
        assert("f8cf0aa9b5c55c3469100b3a7044d86e"@[0] != "32e759dd981a043fa8fbcfd4997143ea"@[0]);
        assert("bfa953ce5fc274b6faa59deca6579361"@[0] != "32e759dd981a043fa8fbcfd4997143ea"@[0]);
        assert("f300c561f75e74380a11f80d4d2647f3"@[0] != "32e759dd981a043fa8fbcfd4997143ea"@[0]);
        assert("1dc9819db44b840edb8cdec9ef7b80c2"@[0] != "32e759dd981a043fa8fbcfd4997143ea"@[0]);
        assert("20936c462fac24dbb967c450f9cb0cb4"@[0] != "32e759dd981a043fa8fbcfd4997143ea"@[0]);
    }
    assert(runtime_atlas_spec("SnoutCoinShop"@, "32e759dd981a043fa8fbcfd4997143ea"@) == Some("Ingame_Sheet_04.png")) by {
        assert("04f5524815177fe408f9529a451cd50b"@[0] != "32e759dd981a043fa8fbcfd4997143ea"@[0]);
        assert("4f58ebaf253ff4341a0acfb2cdf671e6"@[0] != "32e759dd981a043fa8fbcfd4997143ea"@[0]);
        assert("84749b95c69414bd28c174439810c2b0"@[0] != "32e759dd981a043fa8fbcfd4997143ea"@[0]);
        assert("9148d367fdd7f4e5382e2b9cdf74b461"@[0] != "32e759dd981a043fa8fbcfd4997143ea"@[0]);
        assert("a286b652d38de4df384036482abc0571"@[0] != "32e759dd981a043fa8fbcfd4997143ea"@[0]);
        assert("d96ee5bd8db944803a0071fc972963a1"@[0] != "32e759dd981a043fa8fbcfd4997143ea"@[0]);
        assert("0bc3a371695e64987907110f53db83ec"@[0] != "32e759dd981a043fa8fbcfd4997143ea"@[0]);
        assert("1f3758e86c0414579989dc55480b23bc"@[0] != "32e759dd981a043fa8fbcfd4997143ea"@[0]);
        assert("a96fc7a314a89c041bb1a95fd4c281bf"@[0] != "32e759dd981a043fa8fbcfd4997143ea"@[0]);
        assert("e0b533defb69748799a56d4ee3b4260b"@[0] != "32e759dd981a043fa8fbcfd4997143ea"@[0]);
        assert("38fb36d9f174d40fe859d55deb429e95"@[1] != "32e759dd981a043fa8fbcfd4997143ea"@[1]);
        assert("72a903c5f189843248f4878232222af4"@[0] != "32e759dd981a043fa8fbcfd4997143ea"@[0]);
        assert("c2c38ca20a8d040139cb7369bf7be51e"@[0] != "32e759dd981a043fa8fbcfd4997143ea"@[0]);
        assert("c6cc840a754074fe88e9517644258dc2"@[0] != "32e759dd981a043fa8fbcfd4997143ea"@[0]);
        assert("e02abde8d05ec499e9a2ba7f4850c971"@[0] != "32e759dd981a043fa8fbcfd4997143ea"@[0]);
        assert("eba8c92c7583e4309be6ad3f5e17e27e"@[0] != "32e759dd981a043fa8fbcfd4997143ea"@[0]);
        assert("fa87a551483ef4ba690410a25612e993"@[0] != "32e759dd981a043fa8fbcfd4997143ea"@[0]);
        assert("4f53843aa7627f441a5d9e797e1745d9"@[0] != "32e759dd981a043fa8fbcfd4997143ea"@[0]);
        assert("51f3931e706115d468eca7f64035a4df"@[0] != "32e759dd981a043fa8fbcfd4997143ea"@[0]);
        assert("7844d45e898ea1441a473a80684bf4c4"@[0] != "32e759dd981a043fa8fbcfd4997143ea"@[0]);
        assert("89bbb403e054f204395edd3b8fea8241"@[0] != "32e759dd981a043fa8fbcfd4997143ea"@[0]);
        assert("bb7f816eb0cbb9f4584de6251fbc6eec"@[0] != "32e759dd981a043fa8fbcfd4997143ea"@[0]);
        assert("f6f09bead2bfb8c47957022817a31c85"@[0] != "32e759dd981a043fa8fbcfd4997143ea"@[0]);
        assert("f8cf0aa9b5c55c3469100b3a7044d86e"@[0] != "32e759dd981a043fa8fbcfd4997143ea"@[0]);
        assert("bfa953ce5fc274b6faa59deca6579361"@[0] != "32e759dd981a043fa8fbcfd4997143ea"@[0]);
        assert("f300c561f75e74380a11f80d4d2647f3"@[0] != "32e759dd981a043fa8fbcfd4997143ea"@[0]);
        assert("1dc9819db44b840edb8cdec9ef7b80c2"@[0] != "32e759dd981a043fa8fbcfd4997143ea"@[0]);
        assert("20936c462fac24dbb967c450f9cb0cb4"@[0] != "32e759dd981a043fa8fbcfd4997143ea"@[0]);
    }
    assert(!(name == "DailyChallengeDialog"@ || name == "LeaderboardDialog"@ || name == "SeasonEndDialog"@ || name == "SnoutCoinShop"@) ==> runtime_atlas_spec(name, "32e759dd981a043fa8fbcfd4997143ea"@) == Some("Ingame_Characters_Sheet_01.png")) by {
        assert("04f5524815177fe408f9529a451cd50b"@[0] != "32e759dd981a043fa8fbcfd4997143ea"@[0]);
        assert("4f58ebaf253ff4341a0acfb2cdf671e6"@[0] != "32e759dd981a043fa8fbcfd4997143ea"@[0]);
        assert("84749b95c69414bd28c174439810c2b0"@[0] != "32e759dd981a043fa8fbcfd4997143ea"@[0]);
        assert("9148d367fdd7f4e5382e2b9cdf74b461"@[0] != "32e759dd981a043fa8fbcfd4997143ea"@[0]);
        assert("a286b652d38de4df384036482abc0571"@[0] != "32e759dd981a043fa8fbcfd4997143ea"@[0]);
        assert("d96ee5bd8db944803a0071fc972963a1"@[0] != "32e759dd981a043fa8fbcfd4997143ea"@[0]);
        assert("0bc3a371695e64987907110f53db83ec"@[0] != "32e759dd981a043fa8fbcfd4997143ea"@[0]);
        assert("1f3758e86c0414579989dc55480b23bc"@[0] != "32e759dd981a043fa8fbcfd4997143ea"@[0]);
        assert("a96fc7a314a89c041bb1a95fd4c281bf"@[0] != "32e759dd981a043fa8fbcfd4997143ea"@[0]);
        assert("e0b533defb69748799a56d4ee3b4260b"@[0] != "32e759dd981a043fa8fbcfd4997143ea"@[0]);
        assert("38fb36d9f174d40fe859d55deb429e95"@[1] != "32e759dd981a043fa8fbcfd4997143ea"@[1]);
        assert("72a903c5f189843248f4878232222af4"@[0] != "32e759dd981a043fa8fbcfd4997143ea"@[0]);
        assert("c2c38ca20a8d040139cb7369bf7be51e"@[0] != "32e759dd981a043fa8fbcfd4997143ea"@[0]);
        assert("c6cc840a754074fe88e9517644258dc2"@[0] != "32e759dd981a043fa8fbcfd4997143ea"@[0]);
        assert("e02abde8d05ec499e9a2ba7f4850c971"@[0] != "32e759dd981a043fa8fbcfd4997143ea"@[0]);
        assert("eba8c92c7583e4309be6ad3f5e17e27e"@[0] != "32e759dd981a043fa8fbcfd4997143ea"@[0]);
        assert("fa87a551483ef4ba690410a25612e993"@[0] != "32e759dd981a043fa8fbcfd4997143ea"@[0]);
        assert("4f53843aa7627f441a5d9e797e1745d9"@[0] != "32e759dd981a043fa8fbcfd4997143ea"@[0]);
        assert("51f3931e706115d468eca7f64035a4df"@[0] != "32e759dd981a043fa8fbcfd4997143ea"@[0]);
        assert("7844d45e898ea1441a473a80684bf4c4"@[0] != "32e759dd981a043fa8fbcfd4997143ea"@[0]);
        assert("89bbb403e054f204395edd3b8fea8241"@[0] != "32e759dd981a043fa8fbcfd4997143ea"@[0]);
        assert("bb7f816eb0cbb9f4584de6251fbc6eec"@[0] != "32e759dd981a043fa8fbcfd4997143ea"@[0]);
        assert("f6f09bead2bfb8c47957022817a31c85"@[0] != "32e759dd981a043fa8fbcfd4997143ea"@[0]);
        assert("f8cf0aa9b5c55c3469100b3a7044d86e"@[0] != "32e759dd981a043fa8fbcfd4997143ea"@[0]);
        assert("bfa953ce5fc274b6faa59deca6579361"@[0] != "32e759dd981a043fa8fbcfd4997143ea"@[0]);
        assert("f300c561f75e74380a11f80d4d2647f3"@[0] != "32e759dd981a043fa8fbcfd4997143ea"@[0]);
        assert("1dc9819db44b840edb8cdec9ef7b80c2"@[0] != "32e759dd981a043fa8fbcfd4997143ea"@[0]);
        assert("20936c462fac24dbb967c450f9cb0cb4"@[0] != "32e759dd981a043fa8fbcfd4997143ea"@[0]);
    }
}

} // verus!
