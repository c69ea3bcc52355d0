//! Reverse lookup from `.contraption` file names to level scene names.
//!
//! The stem of a contraption file is the first 10 bytes of `SHA1(level key)`
//! as uppercase hex. The base levels come from the episode prefabs; each
//! sandbox level adds the keys `{scene}_{slot}` for `slot` in `1..=40`, and
//! each race level the keys `cr_{scene}_{track}` for `track` in `0..=20`.

use vstd::prelude::*;
use crate::crypto::{sha1_digest, sha1_result};
use crate::data::assets::embedded::{list_pathnames, read_pathname_text, source_bytes_spec, source_records, AssetSource};
use crate::data::assets::unitypackage_loader::{listed, utf8_lossy_result};
use crate::order::strictly_sorted;
use serde_yaml::Value;
use crate::number::{
    dec_spec, dec_u64, i64_to_string, int_to_string_spec, parse_i64, parse_i64_spec, parse_u32,
    parse_u32_spec,
};
use crate::text::{
    chars_eq, chars_to_string, eq_lit, is_ws, join_lines, join_lines_terminated, join_nl, lines,
    lower_char, rfind, rfind_lit, split_lines, split_on, split_on_lit, str_chars, strip_prefix,
    strip_prefix_lit, strip_suffix, strip_suffix_lit, trim, trim_chars, trim_start, vv,
};

verus! {

// ── YAML values ──────────────────────────────────────

/// A YAML value as the level prefabs use it: tags are looked through, and
/// numbers keep only what integer readings need.
pub enum YamlValue {
    Null,
    Bool(bool),
    /// A non-negative integer.
    PosInt(u64),
    /// A negative integer.
    NegInt(i64),
    Float,
    Str(String),
    List(Vec<YamlValue>),
    Mapping(Vec<(YamlValue, YamlValue)>),
}

pub open spec fn yaml_str(v: YamlValue) -> Option<Seq<char>> {
    match v {
        YamlValue::Str(s) => Some(s@),
        _ => None,
    }
}

pub open spec fn yaml_seq(v: YamlValue) -> Option<Seq<YamlValue>> {
    match v {
        YamlValue::List(items) => Some(items@),
        _ => None,
    }
}

pub open spec fn yaml_map(v: YamlValue) -> Option<Seq<(YamlValue, YamlValue)>> {
    match v {
        YamlValue::Mapping(entries) => Some(entries@),
        _ => None,
    }
}

/// The value of the first entry whose key is the string `key`.
pub open spec fn map_get_from(m: Seq<(YamlValue, YamlValue)>, key: Seq<char>, i: int) -> Option<
    YamlValue,
>
    decreases m.len() - i,
{
    if i < 0 || i >= m.len() {
        None
    } else if yaml_str(m[i].0) == Some(key) {
        Some(m[i].1)
    } else {
        map_get_from(m, key, i + 1)
    }
}

pub open spec fn map_get_spec(m: Seq<(YamlValue, YamlValue)>, key: Seq<char>) -> Option<YamlValue> {
    map_get_from(m, key, 0)
}

fn map_get<'a>(m: &'a Vec<(YamlValue, YamlValue)>, key: &str) -> (r: Option<&'a YamlValue>)
    ensures
        match r {
            Some(v) => map_get_spec(m@, key@) == Some(*v),
            None => map_get_spec(m@, key@) is None,
        },
{
    let k = str_chars(key);
    let mut i: usize = 0;
    while i < m.len()
        invariant
            k@ == key@,
            i <= m@.len(),
            map_get_spec(m@, key@) == map_get_from(m@, key@, i as int),
        decreases m.len() - i,
    {
        match &m[i].0 {
            YamlValue::Str(s) => {
                let sc = str_chars(s.as_str());
                if chars_eq(sc.as_slice(), k.as_slice()) {
                    return Some(&m[i].1);
                }
            },
            _ => {},
        }
        i = i + 1;
    }
    None
}

/// An integer reading of a value: an integer (one above `i64::MAX` wraps
/// around, as `u64 as i64` does), or a string that parses as `i64`.
pub open spec fn value_as_i64_spec(v: YamlValue) -> Option<int> {
    match v {
        YamlValue::PosInt(u) => if u <= i64::MAX {
            Some(u as int)
        } else {
            Some(u - 0x1_0000_0000_0000_0000)
        },
        YamlValue::NegInt(i) => Some(i as int),
        YamlValue::Str(s) => parse_i64_spec(s@),
        _ => None,
    }
}

fn value_as_i64(v: &YamlValue) -> (r: Option<i64>)
    ensures
        match r {
            Some(x) => value_as_i64_spec(*v) == Some(x as int),
            None => value_as_i64_spec(*v) is None,
        },
{
    match v {
        YamlValue::PosInt(u) => {
            if *u <= 0x7fff_ffff_ffff_ffff {
                Some(*u as i64)
            } else {
                let w: i128 = (*u as i128) - 0x1_0000_0000_0000_0000i128;
                Some(w as i64)
            }
        },
        YamlValue::NegInt(i) => Some(*i),
        YamlValue::Str(s) => {
            let c = str_chars(s.as_str());
            parse_i64(c.as_slice())
        },
        _ => None,
    }
}

/// A string reading of a value: the string itself, else its integer
/// reading in decimal.
pub open spec fn value_as_string_spec(v: YamlValue) -> Option<Seq<char>> {
    match v {
        YamlValue::Str(s) => Some(s@),
        _ => match value_as_i64_spec(v) {
            Some(x) => Some(int_to_string_spec(x)),
            None => None,
        },
    }
}

fn value_as_string(v: &YamlValue) -> (r: Option<Vec<char>>)
    ensures
        match r {
            Some(s) => value_as_string_spec(*v) == Some(s@),
            None => value_as_string_spec(*v) is None,
        },
{
    match v {
        YamlValue::Str(s) => Some(str_chars(s.as_str())),
        _ => match value_as_i64(v) {
            Some(x) => Some(i64_to_string(x)),
            None => None,
        },
    }
}

// ── Level entries ────────────────────────────────────

#[derive(Debug, Clone, Copy, PartialEq, Eq, Structural)]
pub enum LevelCategory {
    Episode,
    Sandbox,
    Race,
}

/// A base level: its display label, its scene and its kind.
pub struct LevelEntry {
    pub label: String,
    pub scene: String,
    pub category: LevelCategory,
}

pub open spec fn entry_view(e: LevelEntry) -> (Seq<char>, Seq<char>, LevelCategory) {
    (e.label@, e.scene@, e.category)
}

pub open spec fn entries_view(es: Seq<LevelEntry>) -> Seq<(Seq<char>, Seq<char>, LevelCategory)> {
    es.map_values(|e: LevelEntry| entry_view(e))
}

/// The scene a level loader prefab path names: its file name without
/// `_loader.prefab`.
pub open spec fn scene_from_loader_path_spec(path: Seq<char>) -> Option<Seq<char>> {
    let filename = match rfind(path, "/"@) {
        Some(i) => path.skip(i + 1),
        None => path,
    };
    strip_suffix(filename, "_loader.prefab"@)
}

pub fn scene_name_from_loader_path(path: &str) -> (r: Option<String>)
    ensures
        match r {
            Some(s) => scene_from_loader_path_spec(path@) == Some(s@),
            None => scene_from_loader_path_spec(path@) is None,
        },
{
    proof {
        reveal_strlit("/");
    }
    let p = str_chars(path);
    let filename = match rfind_lit(p.as_slice(), "/") {
        Some(i) => {
            let n = p.len();
            assert(i + 1 <= n);
            crate::text::copy_range(p.as_slice(), i + 1, n)
        },
        None => {
            assert(p@.subrange(0, p@.len() as int) =~= p@);
            crate::text::copy_range(p.as_slice(), 0, p.len())
        },
    };
    match strip_suffix_lit(filename.as_slice(), "_loader.prefab") {
        Some(s) => Some(chars_to_string(s.as_slice())),
        None => None,
    }
}

/// The entry of a level of a sandbox or race list.
pub open spec fn loader_entry_spec(v: YamlValue, category: LevelCategory) -> Option<
    (Seq<char>, Seq<char>, LevelCategory),
> {
    match yaml_map(v) {
        Some(m) => match (map_get_spec(m, "m_identifier"@), map_get_spec(m, "m_levelLoaderPath"@)) {
            (Some(id), Some(lp)) => match (yaml_str(id), yaml_str(lp)) {
                (Some(label), Some(path)) => match scene_from_loader_path_spec(path) {
                    Some(scene) => Some((label, scene, category)),
                    None => None,
                },
                _ => None,
            },
            _ => None,
        },
        None => None,
    }
}

/// The entry of the `i`-th level of an episode whose label prefix is
/// `prefix`: `{prefix}-{i + 1}`.
pub open spec fn episode_entry_spec(prefix: Seq<char>, v: YamlValue, i: int) -> Option<
    (Seq<char>, Seq<char>, LevelCategory),
> {
    match yaml_map(v) {
        Some(m) => match map_get_spec(m, "sceneName"@) {
            Some(sv) => match yaml_str(sv) {
                Some(scene) => Some(
                    (prefix + seq!['-'] + dec_spec((i + 1) as nat), scene, LevelCategory::Episode),
                ),
                None => None,
            },
            None => None,
        },
        None => None,
    }
}

pub open spec fn opt_seq<A>(o: Option<A>) -> Seq<A> {
    match o {
        Some(a) => seq![a],
        None => Seq::empty(),
    }
}

pub open spec fn episode_entries(prefix: Seq<char>, items: Seq<YamlValue>, n: nat) -> Seq<
    (Seq<char>, Seq<char>, LevelCategory),
>
    decreases n,
{
    if n == 0 {
        Seq::empty()
    } else {
        episode_entries(prefix, items, (n - 1) as nat) + opt_seq(
            episode_entry_spec(prefix, items[n - 1], n - 1),
        )
    }
}

pub open spec fn loader_entries(items: Seq<YamlValue>, category: LevelCategory, n: nat) -> Seq<
    (Seq<char>, Seq<char>, LevelCategory),
>
    decreases n,
{
    if n == 0 {
        Seq::empty()
    } else {
        loader_entries(items, category, (n - 1) as nat) + opt_seq(
            loader_entry_spec(items[n - 1], category),
        )
    }
}

/// The levels a `MonoBehaviour` of a levels prefab lists: an episode's
/// `m_levelInfos` labelled by `m_label`, or a sandbox (`S`) or race (`R`)
/// list of loader-backed `m_levels`.
pub open spec fn level_entries_spec(fields: Seq<(YamlValue, YamlValue)>) -> Seq<
    (Seq<char>, Seq<char>, LevelCategory),
> {
    let label = match map_get_spec(fields, "m_label"@) {
        Some(l) => value_as_string_spec(l),
        None => None,
    };
    let infos = match map_get_spec(fields, "m_levelInfos"@) {
        Some(v) => yaml_seq(v),
        None => None,
    };
    let levels = match map_get_spec(fields, "m_levels"@) {
        Some(v) => yaml_seq(v),
        None => None,
    };
    match infos {
        Some(items) => match label {
            Some(prefix) => episode_entries(prefix, items, items.len()),
            None => Seq::empty(),
        },
        None => match levels {
            Some(items) => match label {
                Some(l) => if l == "S"@ {
                    loader_entries(items, LevelCategory::Sandbox, items.len())
                } else if l == "R"@ {
                    loader_entries(items, LevelCategory::Race, items.len())
                } else {
                    Seq::empty()
                },
                None => Seq::empty(),
            },
            None => Seq::empty(),
        },
    }
}

fn push_chars(out: &mut Vec<char>, s: &[char])
    ensures
        final(out)@ == old(out)@ + s@,
{
    let ghost start = out@;
    let mut i: usize = 0;
    while i < s.len()
        invariant
            i <= s@.len(),
            out@ == start + s@.take(i as int),
        decreases s.len() - i,
    {
        out.push(s[i]);
        i = i + 1;
        assert(out@ =~= start + s@.take(i as int));
    }
    assert(s@.take(i as int) =~= s@);
}

fn parse_loader_backed_level(v: &YamlValue, category: LevelCategory) -> (r: Option<LevelEntry>)
    ensures
        match r {
            Some(e) => loader_entry_spec(*v, category) == Some(entry_view(e)),
            None => loader_entry_spec(*v, category) is None,
        },
{
    match v {
        YamlValue::Mapping(m) => {
            let id = map_get(m, "m_identifier");
            let lp = map_get(m, "m_levelLoaderPath");
            match (id, lp) {
                (Some(YamlValue::Str(label)), Some(YamlValue::Str(path))) => {
                    match scene_name_from_loader_path(path.as_str()) {
                        Some(scene) => {
                            let lc = str_chars(label.as_str());
                            Some(LevelEntry { label: chars_to_string(lc.as_slice()), scene, category })
                        },
                        None => None,
                    }
                },
                _ => None,
            }
        },
        _ => None,
    }
}

fn episode_entry(prefix: &[char], v: &YamlValue, i: usize) -> (r: Option<LevelEntry>)
    requires
        i < usize::MAX,
    ensures
        match r {
            Some(e) => episode_entry_spec(prefix@, *v, i as int) == Some(entry_view(e)),
            None => episode_entry_spec(prefix@, *v, i as int) is None,
        },
{
    match v {
        YamlValue::Mapping(m) => match map_get(m, "sceneName") {
            Some(YamlValue::Str(scene)) => {
                let mut label: Vec<char> = Vec::new();
                push_chars(&mut label, prefix);
                label.push('-');
                let num = dec_u64((i + 1) as u64);
                push_chars(&mut label, num.as_slice());
                assert(label@ =~= prefix@ + seq!['-'] + dec_spec((i + 1) as nat));
                let sc = str_chars(scene.as_str());
                Some(
                    LevelEntry {
                        label: chars_to_string(label.as_slice()),
                        scene: chars_to_string(sc.as_slice()),
                        category: LevelCategory::Episode,
                    },
                )
            },
            _ => None,
        },
        _ => None,
    }
}

/// The levels listed by the fields of a levels prefab's `MonoBehaviour`.
pub fn parse_level_entries(fields: &Vec<(YamlValue, YamlValue)>) -> (r: Vec<LevelEntry>)
    ensures
        entries_view(r@) == level_entries_spec(fields@),
{
    let label = match map_get(fields, "m_label") {
        Some(l) => value_as_string(l),
        None => None,
    };
    let infos = match map_get(fields, "m_levelInfos") {
        Some(YamlValue::List(items)) => Some(items),
        _ => None,
    };
    let mut out: Vec<LevelEntry> = Vec::new();
    match infos {
        Some(items) => {
            let prefix = match label {
                Some(p) => p,
                None => {
                    return out;
                },
            };
            let mut i: usize = 0;
            while i < items.len()
                invariant
                    i <= items@.len(),
                    entries_view(out@) == episode_entries(prefix@, items@, i as nat),
                decreases items.len() - i,
            {
                let ghost before = entries_view(out@);
                match episode_entry(prefix.as_slice(), &items[i], i) {
                    Some(e) => {
                        out.push(e);
                        assert(entries_view(out@) =~= before.push(entry_view(e)));
                    },
                    None => {},
                }
                assert(episode_entries(prefix@, items@, (i + 1) as nat) =~= before + opt_seq(
                    episode_entry_spec(prefix@, items@[i as int], i as int),
                ));
                i = i + 1;
            }
            out
        },
        None => {
            let levels = match map_get(fields, "m_levels") {
                Some(YamlValue::List(items)) => items,
                _ => {
                    return out;
                },
            };
            let category = match label {
                Some(l) => if eq_lit(l.as_slice(), "S") {
                    LevelCategory::Sandbox
                } else if eq_lit(l.as_slice(), "R") {
                    LevelCategory::Race
                } else {
                    return out;
                },
                None => {
                    return out;
                },
            };
            let mut i: usize = 0;
            while i < levels.len()
                invariant
                    i <= levels@.len(),
                    entries_view(out@) == loader_entries(levels@, category, i as nat),
                decreases levels.len() - i,
            {
                let ghost before = entries_view(out@);
                match parse_loader_backed_level(&levels[i], category) {
                    Some(e) => {
                        out.push(e);
                        assert(entries_view(out@) =~= before.push(entry_view(e)));
                    },
                    None => {},
                }
                assert(loader_entries(levels@, category, (i + 1) as nat) =~= before + opt_seq(
                    loader_entry_spec(levels@[i as int], category),
                ));
                i = i + 1;
            }
            out
        },
    }
}

/// The levels of one YAML document of a levels prefab: those of its root
/// `MonoBehaviour` mapping.
pub open spec fn document_entries_spec(v: YamlValue) -> Seq<(Seq<char>, Seq<char>, LevelCategory)> {
    match yaml_map(v) {
        Some(m) => if m.len() > 0 && yaml_str(m[0].0) == Some("MonoBehaviour"@) {
            match yaml_map(m[0].1) {
                Some(fields) => level_entries_spec(fields),
                None => Seq::empty(),
            }
        } else {
            Seq::empty()
        },
        None => Seq::empty(),
    }
}

pub fn document_level_entries(v: &YamlValue) -> (r: Vec<LevelEntry>)
    ensures
        entries_view(r@) == document_entries_spec(*v),
{
    match v {
        YamlValue::Mapping(m) => {
            if m.len() == 0 {
                return Vec::new();
            }
            match (&m[0].0, &m[0].1) {
                (YamlValue::Str(k), YamlValue::Mapping(fields)) => {
                    let kc = str_chars(k.as_str());
                    if eq_lit(kc.as_slice(), "MonoBehaviour") {
                        parse_level_entries(fields)
                    } else {
                        let r: Vec<LevelEntry> = Vec::new();
                        assert(entries_view(r@) =~= Seq::empty());
                        r
                    }
                },
                _ => {
                    let r: Vec<LevelEntry> = Vec::new();
                    assert(entries_view(r@) =~= Seq::empty());
                    r
                },
            }
        },
        _ => {
            let r: Vec<LevelEntry> = Vec::new();
            assert(entries_view(r@) =~= Seq::empty());
            r
        },
    }
}

/// The levels of a levels prefab, from its documents as parsed (`None` for
/// one that is not valid YAML): those of the first document that lists
/// any.
pub open spec fn select_entries_from(docs: Seq<Option<YamlValue>>, i: int) -> Seq<
    (Seq<char>, Seq<char>, LevelCategory),
>
    decreases docs.len() - i,
{
    if i < 0 || i >= docs.len() {
        Seq::empty()
    } else {
        match docs[i] {
            Some(v) => if document_entries_spec(v).len() > 0 {
                document_entries_spec(v)
            } else {
                select_entries_from(docs, i + 1)
            },
            None => select_entries_from(docs, i + 1),
        }
    }
}

pub fn select_level_entries(docs: &Vec<Option<YamlValue>>) -> (r: Vec<LevelEntry>)
    ensures
        entries_view(r@) == select_entries_from(docs@, 0),
{
    let mut i: usize = 0;
    while i < docs.len()
        invariant
            i <= docs@.len(),
            select_entries_from(docs@, 0) == select_entries_from(docs@, i as int),
        decreases docs.len() - i,
    {
        match &docs[i] {
            Some(v) => {
                let es = document_level_entries(v);
                if es.len() > 0 {
                    return es;
                }
            },
            None => {},
        }
        i = i + 1;
    }
    let r: Vec<LevelEntry> = Vec::new();
    assert(entries_view(r@) =~= Seq::empty());
    r
}

// ── YAML documents ───────────────────────────────────

/// What `serde_yaml` makes of a YAML document, as the library's value:
/// `None` when it is not valid YAML.
pub uninterp spec fn yaml_document(text: Seq<char>) -> Option<YamlValue>;

#[verifier::external_type_specification]
#[verifier::external_body]
pub struct ExSerdeYamlValue(Value);

/// A `serde_yaml::Value` as the library's value, variant for variant: a
/// tagged value by the value it tags, a number by the variant of
/// `serde_yaml::Number` that holds it (a non-negative integer answers
/// `as_u64`, a negative one only `as_i64`, a float neither).
#[verifier::external_body]
fn yaml_value_of(v: &Value) -> YamlValue {
    match v {
        Value::Null => YamlValue::Null,
        Value::Bool(b) => YamlValue::Bool(*b),
        Value::Number(n) => match (n.as_u64(), n.as_i64()) {
            (Some(u), _) => YamlValue::PosInt(u),
            (None, Some(i)) => YamlValue::NegInt(i),
            _ => YamlValue::Float,
        },
        Value::String(s) => YamlValue::Str(s.clone()),
        Value::Sequence(xs) => YamlValue::List(xs.iter().map(yaml_value_of).collect()),
        Value::Mapping(m) => YamlValue::Mapping(m.iter().map(|(k, x)| (yaml_value_of(k), yaml_value_of(x))).collect()),
        Value::Tagged(t) => yaml_value_of(&t.value),
    }
}

/// `serde_yaml::from_str::<serde_yaml::Value>` of one document, converted
/// by `yaml_value_of`; the contract names the result, which depends on the
/// text alone.
#[verifier::external_body]
fn parse_yaml_document(text: &str) -> (r: Option<YamlValue>)
    ensures
        r == yaml_document(text@),
{
    serde_yaml::from_str::<Value>(text).ok().map(|v| yaml_value_of(&v))
}

/// The levels of a levels prefab text: those of its first `MonoBehaviour`
/// document that lists any.
pub open spec fn levels_prefab_spec(text: Seq<char>) -> Seq<(Seq<char>, Seq<char>, LevelCategory)> {
    select_entries_from(
        levels_prefab_bodies_spec(text).map_values(|b: Seq<char>| yaml_document(b)),
        0,
    )
}

/// The levels of one levels prefab text.
pub fn parse_levels_prefab(text: &str) -> (r: Vec<LevelEntry>)
    ensures
        entries_view(r@) == levels_prefab_spec(text@),
{
    let bodies = levels_prefab_bodies(text);
    let ghost bv = crate::text::strings_view(bodies@);
    let mut docs: Vec<Option<YamlValue>> = Vec::new();
    let mut i: usize = 0;
    while i < bodies.len()
        invariant
            bv == crate::text::strings_view(bodies@),
            i <= bodies@.len(),
            docs@ == bv.take(i as int).map_values(|b: Seq<char>| yaml_document(b)),
        decreases bodies.len() - i,
    {
        let d = parse_yaml_document(bodies[i].as_str());
        assert(bv[i as int] == bodies@[i as int]@);
        docs.push(d);
        assert(bv.take(i + 1) =~= bv.take(i as int).push(bv[i as int]));
        assert(docs@ =~= bv.take(i + 1).map_values(|b: Seq<char>| yaml_document(b)));
        i = i + 1;
    }
    assert(bv.take(i as int) =~= bv);
    select_level_entries(&docs)
}

/// The levels a listed pathname adds: those of an episode levels prefab
/// (`Assets/Prefab/Episode...`) whose asset can be read.
pub open spec fn episode_prefab_entries(s: AssetSource, p: Seq<char>) -> Seq<
    (Seq<char>, Seq<char>, LevelCategory),
> {
    if crate::text::starts_with(p, "Assets/Prefab/Episode"@) {
        match source_bytes_spec(s, p) {
            Some(b) => levels_prefab_spec(utf8_lossy_result(b)),
            None => Seq::empty(),
        }
    } else {
        Seq::empty()
    }
}

pub open spec fn base_entries_of(s: AssetSource, ps: Seq<Seq<char>>) -> Seq<
    (Seq<char>, Seq<char>, LevelCategory),
>
    decreases ps.len(),
{
    if ps.len() == 0 {
        Seq::empty()
    } else {
        base_entries_of(s, ps.drop_last()) + episode_prefab_entries(s, ps.last())
    }
}

/// The base levels of every episode levels prefab (`Episode*Levels.prefab`
/// under `Assets/Prefab/`) of an asset source, in pathname order.
pub fn load_base_level_entries(source: &AssetSource) -> (r: Vec<LevelEntry>)
    ensures
        exists|ps: Seq<Seq<char>>|
            strictly_sorted(ps) && (forall|t: Seq<char>| #[trigger]
                ps.contains(t) <==> listed(source_records(*source), "Assets/Prefab/"@, "Levels.prefab"@, t))
                && entries_view(r@) == base_entries_of(*source, ps),
{
    let paths = list_pathnames(source, "Assets/Prefab/", "Levels.prefab");
    let ghost pv = crate::text::strings_view(paths@);
    let mut entries: Vec<LevelEntry> = Vec::new();
    let mut i: usize = 0;
    while i < paths.len()
        invariant
            pv == crate::text::strings_view(paths@),
            i <= paths@.len(),
            entries_view(entries@) == base_entries_of(*source, pv.take(i as int)),
        decreases paths.len() - i,
    {
        let p = &paths[i];
        assert(pv[i as int] == p@);
        assert(pv.take(i + 1).drop_last() =~= pv.take(i as int));
        assert(pv.take(i + 1).last() == pv[i as int]);
        let pc = str_chars(p.as_str());
        proof {
            reveal_strlit("Assets/Prefab/Episode");
        }
        if crate::text::starts_with_lit(pc.as_slice(), "Assets/Prefab/Episode") {
            match read_pathname_text(source, p.as_str()) {
                Some(text) => {
                    let ghost before = entries_view(entries@);
                    let mut parsed = parse_levels_prefab(text.as_str());
                    let ghost pe = entries_view(parsed@);
                    entries.append(&mut parsed);
                    assert(entries_view(entries@) =~= before + pe);
                },
                None => {
                    assert(episode_prefab_entries(*source, p@) =~= Seq::empty());
                    assert(entries_view(entries@) =~= entries_view(entries@) + Seq::<
                        (Seq<char>, Seq<char>, LevelCategory),
                    >::empty());
                },
            }
        } else {
            assert(entries_view(entries@) =~= entries_view(entries@) + Seq::<
                (Seq<char>, Seq<char>, LevelCategory),
            >::empty());
        }
        i = i + 1;
    }
    assert(pv.take(i as int) =~= pv);
    entries
}

// ── Prefab documents ─────────────────────────────────

/// Length of the run of non-white-space chars that `s` starts with.
pub open spec fn token_len(s: Seq<char>) -> nat
    decreases s.len(),
{
    if s.len() > 0 && !is_ws(s[0]) {
        1 + token_len(s.drop_first())
    } else {
        0
    }
}

/// The first white-space separated token of `s` and what follows it.
pub open spec fn next_token(s: Seq<char>) -> Option<(Seq<char>, Seq<char>)> {
    let t = trim_start(s);
    if t.len() == 0 {
        None
    } else {
        Some((t.take(token_len(t) as int), t.skip(token_len(t) as int)))
    }
}

/// `!u!<type> &<file id>`: the type and the file id of a document header.
pub open spec fn doc_header_spec(header: Seq<char>) -> Option<(int, Seq<char>)> {
    match next_token(header) {
        Some((first, rest)) => match next_token(rest) {
            Some((second, _)) => match (strip_prefix(first, "!u!"@), strip_prefix(second, "&"@)) {
                (Some(ty), Some(id)) => match parse_u32_spec(ty) {
                    Some(t) => Some((t, id)),
                    None => None,
                },
                _ => None,
            },
            None => None,
        },
        None => None,
    }
}

fn next_token_of(s: &[char]) -> (r: Option<(Vec<char>, Vec<char>)>)
    ensures
        match r {
            Some((t, rest)) => next_token(s@) == Some((t@, rest@)),
            None => next_token(s@) is None,
        },
{
    let t = crate::text::trim_start_chars(s);
    if t.len() == 0 {
        return None;
    }
    let mut k: usize = 0;
    while k < t.len() && !crate::text::is_ws_char(t[k])
        invariant
            k <= t@.len(),
            forall|m: int| 0 <= m < k ==> !is_ws(#[trigger] t@[m]),
        decreases t.len() - k,
    {
        k = k + 1;
    }
    proof {
        lemma_token_len(t@, k as int);
    }
    let n = t.len();
    Some((crate::text::copy_range(t.as_slice(), 0, k), crate::text::copy_range(t.as_slice(), k, n)))
}

proof fn lemma_token_len(s: Seq<char>, k: int)
    requires
        0 <= k <= s.len(),
        forall|m: int| 0 <= m < k ==> !is_ws(#[trigger] s[m]),
        k < s.len() ==> is_ws(s[k]),
    ensures
        token_len(s) == k,
    decreases k,
{
    if k > 0 {
        let t = s.drop_first();
        assert forall|m: int| 0 <= m < k - 1 implies !is_ws(#[trigger] t[m]) by {
            assert(t[m] == s[m + 1]);
        }
        if k < s.len() {
            assert(t[k - 1] == s[k]);
        }
        lemma_token_len(t, k - 1);
    } else if s.len() > 0 {
        assert(is_ws(s[0]));
    }
}

pub fn parse_doc_header(header: &[char]) -> (r: Option<(u32, String)>)
    ensures
        match r {
            Some((t, id)) => doc_header_spec(header@) == Some((t as int, id@)),
            None => doc_header_spec(header@) is None,
        },
{
    let (first, rest) = match next_token_of(header) {
        Some(p) => p,
        None => {
            return None;
        },
    };
    let (second, _) = match next_token_of(rest.as_slice()) {
        Some(p) => p,
        None => {
            return None;
        },
    };
    let ty = match strip_prefix_lit(first.as_slice(), "!u!") {
        Some(t) => t,
        None => {
            return None;
        },
    };
    let id = match strip_prefix_lit(second.as_slice(), "&") {
        Some(i) => i,
        None => {
            return None;
        },
    };
    match parse_u32(ty.as_slice()) {
        Some(t) => Some((t, chars_to_string(id.as_slice()))),
        None => None,
    }
}

/// The body of a `MonoBehaviour` document (type 114): the lines after its
/// header, joined with `\n`.
pub open spec fn doc_body_spec(doc: Seq<char>) -> Option<Seq<char>> {
    let ls = lines(doc);
    if ls.len() > 0 && (doc_header_spec(trim(ls[0])) matches Some((t, _)) && t == 114) {
        Some(join_nl(ls.skip(1)))
    } else {
        None
    }
}

/// The bodies of the `MonoBehaviour` documents of a levels prefab, in
/// order.
pub open spec fn bodies_from(docs: Seq<Seq<char>>, n: nat) -> Seq<Seq<char>>
    decreases n,
{
    if n == 0 {
        Seq::empty()
    } else {
        bodies_from(docs, (n - 1) as nat) + opt_seq(doc_body_spec(docs[n - 1]))
    }
}

pub open spec fn levels_prefab_bodies_spec(text: Seq<char>) -> Seq<Seq<char>> {
    let docs = split_on(text, "--- "@).skip(1);
    bodies_from(docs, docs.len())
}

fn join_with_newlines(ls: &Vec<Vec<char>>) -> (r: Vec<char>)
    ensures
        r@ == join_nl(vv(ls@)),
{
    let mut j = join_lines(ls);
    if j.len() > 0 {
        j.pop();
    }
    j
}

/// The bodies of the `MonoBehaviour` documents of a levels prefab text.
pub fn levels_prefab_bodies(text: &str) -> (r: Vec<String>)
    ensures
        crate::text::strings_view(r@) == levels_prefab_bodies_spec(text@),
{
    proof {
        reveal_strlit("--- ");
    }
    let t = str_chars(text);
    let parts = split_on_lit(t.as_slice(), "--- ");
    let ghost docs = split_on(text@, "--- "@).skip(1);
    let mut out: Vec<String> = Vec::new();
    if parts.len() == 0 {
        assert(docs.len() == 0);
        return out;
    }
    let mut i: usize = 1;
    while i < parts.len()
        invariant
            vv(parts@) == split_on(text@, "--- "@),
            docs == split_on(text@, "--- "@).skip(1),
            1 <= i <= parts@.len(),
            crate::text::strings_view(out@) == bodies_from(docs, (i - 1) as nat),
        decreases parts.len() - i,
    {
        assert(docs[i - 1] == parts@[i as int]@);
        let ls = split_lines(parts[i].as_slice());
        let ghost before = crate::text::strings_view(out@);
        if ls.len() > 0 {
            let h = trim_chars(ls[0].as_slice());
            assert(vv(ls@)[0] == ls@[0]@);
            match parse_doc_header(h.as_slice()) {
                Some((ty, _)) => {
                    if ty == 114 {
                        let mut rest: Vec<Vec<char>> = Vec::new();
                        let mut k: usize = 1;
                        while k < ls.len()
                            invariant
                                1 <= k <= ls@.len(),
                                vv(rest@) == vv(ls@).skip(1).take(k - 1),
                            decreases ls.len() - k,
                        {
                            let ghost rb = vv(rest@);
                            rest.push(crate::text::copy_range(ls[k].as_slice(), 0, ls[k].len()));
                            assert(ls@[k as int]@.subrange(0, ls@[k as int]@.len() as int)
                                =~= ls@[k as int]@);
                            assert(vv(ls@).skip(1)[k - 1] == ls@[k as int]@);
                            assert(vv(rest@) =~= rb.push(ls@[k as int]@));
                            assert(vv(ls@).skip(1).take(k as int) =~= vv(ls@).skip(1).take(
                                k - 1,
                            ).push(vv(ls@).skip(1)[k - 1]));
                            k = k + 1;
                        }
                        assert(vv(ls@).skip(1).take(k - 1) =~= vv(ls@).skip(1));
                        let body = join_with_newlines(&rest);
                        out.push(chars_to_string(body.as_slice()));
                        assert(crate::text::strings_view(out@) =~= before.push(body@));
                    }
                },
                None => {},
            }
        }
        assert(bodies_from(docs, i as nat) =~= before + opt_seq(doc_body_spec(docs[i - 1])));
        i = i + 1;
    }
    assert(docs.len() == parts@.len() - 1);
    out
}

// ── Lookup ───────────────────────────────────────────

/// Uppercase hex of a byte, as `{:02X}` writes it.
pub open spec fn hex_digit(d: int) -> char {
    if d < 10 {
        (d + '0' as int) as char
    } else {
        (d - 10 + 'A' as int) as char
    }
}

pub open spec fn hex_upper(bytes: Seq<u8>) -> Seq<char>
    decreases bytes.len(),
{
    if bytes.len() == 0 {
        Seq::empty()
    } else {
        hex_upper(bytes.drop_last()) + seq![
            hex_digit((bytes.last() / 16) as int),
            hex_digit((bytes.last() % 16) as int),
        ]
    }
}

/// The `.contraption` file stem of a level key: the first 10 bytes of the
/// SHA-1 of its UTF-8 bytes, as uppercase hex.
pub open spec fn contraption_hash_spec(level_key: Seq<char>) -> Seq<char> {
    hex_upper(sha1_result(vstd::utf8::encode_utf8(level_key)).take(10))
}

fn hex_digit_exec(d: u8) -> (r: char)
    requires
        d < 16,
    ensures
        r == hex_digit(d as int),
{
    if d < 10 {
        (d + 48) as char
    } else {
        (d - 10 + 65) as char
    }
}

pub fn contraption_hash(level_key: &str) -> (r: String)
    ensures
        r@ == contraption_hash_spec(level_key@),
{
    let bytes = level_key.as_bytes();
    let digest = sha1_digest(bytes);
    let ghost h = digest@.take(10);
    let mut out: Vec<char> = Vec::new();
    let mut i: usize = 0;
    while i < 10
        invariant
            digest@.len() == 20,
            h == digest@.take(10),
            i <= 10,
            out@ == hex_upper(h.take(i as int)),
        decreases 10 - i,
    {
        let b = digest[i];
        out.push(hex_digit_exec(b / 16));
        out.push(hex_digit_exec(b % 16));
        assert(h.take(i + 1).drop_last() =~= h.take(i as int));
        assert(out@ =~= hex_upper(h.take(i + 1)));
        i = i + 1;
    }
    assert(h.take(10) =~= h);
    chars_to_string(out.as_slice())
}

/// One step of building the lookup: `replace` entries overwrite what a
/// key held, the others only fill a key that holds nothing yet.
pub struct LookupOp {
    pub hash: String,
    pub label: String,
    pub scene: String,
    pub replace: bool,
}

/// The `.contraption` stem lookup, as the steps that built it. Each step
/// keys its scene by that scene's hash.
pub struct LevelLookup {
    ops: Vec<LookupOp>,
}

pub open spec fn op_view(o: LookupOp) -> (Seq<char>, Seq<char>, Seq<char>, bool) {
    (o.hash@, o.label@, o.scene@, o.replace)
}

pub closed spec fn ops_view(l: LevelLookup) -> Seq<(Seq<char>, Seq<char>, Seq<char>, bool)> {
    l.ops@.map_values(|o: LookupOp| op_view(o))
}

/// What the lookup holds for a key after the steps `ops`: (label, scene).
pub open spec fn lookup_spec(ops: Seq<(Seq<char>, Seq<char>, Seq<char>, bool)>, key: Seq<char>) -> Option<
    (Seq<char>, Seq<char>),
>
    decreases ops.len(),
{
    if ops.len() == 0 {
        None
    } else {
        let prev = lookup_spec(ops.drop_last(), key);
        let o = ops.last();
        if o.0 == key && (o.3 || prev is None) {
            Some((o.1, o.2))
        } else {
            prev
        }
    }
}

/// The scenes of one category, each once, in order of first appearance.
pub open spec fn scenes_of(es: Seq<(Seq<char>, Seq<char>, LevelCategory)>, c: LevelCategory, n: nat) -> Seq<
    Seq<char>,
>
    decreases n,
{
    if n == 0 {
        Seq::empty()
    } else {
        let prev = scenes_of(es, c, (n - 1) as nat);
        if es[n - 1].2 == c && !prev.contains(es[n - 1].1) {
            prev.push(es[n - 1].1)
        } else {
            prev
        }
    }
}

/// The keys a sandbox scene adds: `{scene}_{slot}` for `slot` in `1..=40`.
pub open spec fn sandbox_keys(scene: Seq<char>) -> Seq<Seq<char>> {
    Seq::new(40, |k: int| scene + seq!['_'] + dec_spec((k + 1) as nat))
}

/// The keys a race scene adds: `cr_{scene}_{track}` for `track` in
/// `0..=20`.
pub open spec fn race_keys(scene: Seq<char>) -> Seq<Seq<char>> {
    Seq::new(21, |k: int| "cr_"@ + scene + seq!['_'] + dec_spec(k as nat))
}

/// Fill steps for a list of keys.
pub open spec fn fill_ops(keys: Seq<Seq<char>>) -> Seq<(Seq<char>, Seq<char>, Seq<char>, bool)> {
    keys.map_values(
        |k: Seq<char>| (contraption_hash_spec(k), Seq::<char>::empty(), k, false),
    )
}

pub open spec fn scenes_ops(scenes: Seq<Seq<char>>, race: bool) -> Seq<
    (Seq<char>, Seq<char>, Seq<char>, bool),
>
    decreases scenes.len(),
{
    if scenes.len() == 0 {
        Seq::empty()
    } else {
        scenes_ops(scenes.drop_last(), race) + fill_ops(
            if race {
                race_keys(scenes.last())
            } else {
                sandbox_keys(scenes.last())
            },
        )
    }
}

/// The steps that build the lookup from the base levels.
pub open spec fn lookup_ops_spec(es: Seq<(Seq<char>, Seq<char>, LevelCategory)>) -> Seq<
    (Seq<char>, Seq<char>, Seq<char>, bool),
> {
    es.map_values(
        |e: (Seq<char>, Seq<char>, LevelCategory)| (contraption_hash_spec(e.1), e.0, e.1, true),
    ) + scenes_ops(scenes_of(es, LevelCategory::Sandbox, es.len()), false) + scenes_ops(
        scenes_of(es, LevelCategory::Race, es.len()),
        true,
    )
}

fn string_copy(s: &String) -> (r: String)
    ensures
        r@ == s@,
{
    let c = str_chars(s.as_str());
    chars_to_string(c.as_slice())
}

fn collect_scenes(entries: &[LevelEntry], c: LevelCategory) -> (r: Vec<String>)
    ensures
        crate::text::strings_view(r@) == scenes_of(
            entries_view(entries@),
            c,
            entries@.len(),
        ),
{
    let ghost ev = entries_view(entries@);
    let mut out: Vec<String> = Vec::new();
    let mut i: usize = 0;
    while i < entries.len()
        invariant
            ev == entries_view(entries@),
            i <= entries@.len(),
            crate::text::strings_view(out@) == scenes_of(ev, c, i as nat),
        decreases entries.len() - i,
    {
        let e = &entries[i];
        assert(ev[i as int] == entry_view(*e));
        if e.category == c {
            let sc = str_chars(e.scene.as_str());
            let ghost sv = crate::text::strings_view(out@);
            let mut seen = false;
            let mut k: usize = 0;
            while k < out.len()
                invariant
                    sv == crate::text::strings_view(out@),
                    sc@ == e.scene@,
                    k <= out@.len(),
                    seen == (exists|m: int| 0 <= m < k && sv[m] == sc@),
                decreases out.len() - k,
            {
                let oc = str_chars(out[k].as_str());
                assert(oc@ == sv[k as int]);
                if chars_eq(oc.as_slice(), sc.as_slice()) {
                    seen = true;
                }
                k = k + 1;
            }
            assert(seen == sv.contains(sc@));
            if !seen {
                out.push(string_copy(&e.scene));
                assert(crate::text::strings_view(out@) =~= sv.push(sc@));
            }
        }
        i = i + 1;
    }
    out
}

fn push_fill_op(ops: &mut Vec<LookupOp>, key: Vec<char>)
    ensures
        final(ops)@.map_values(|o: LookupOp| op_view(o)) == old(ops)@.map_values(
            |o: LookupOp| op_view(o),
        ).push((contraption_hash_spec(key@), Seq::<char>::empty(), key@, false)),
{
    let ghost before = ops@.map_values(|o: LookupOp| op_view(o));
    let ks = chars_to_string(key.as_slice());
    let hash = contraption_hash(ks.as_str());
    let e: Vec<char> = Vec::new();
    ops.push(LookupOp { hash, label: chars_to_string(e.as_slice()), scene: ks, replace: false });
    assert(e@ =~= Seq::<char>::empty());
    assert(ops@.map_values(|o: LookupOp| op_view(o)) =~= before.push(
        (contraption_hash_spec(key@), Seq::<char>::empty(), key@, false),
    ));
}

fn push_scene_ops(ops: &mut Vec<LookupOp>, scene: &String, race: bool)
    ensures
        final(ops)@.map_values(|o: LookupOp| op_view(o)) == old(ops)@.map_values(
            |o: LookupOp| op_view(o),
        ) + fill_ops(
            if race {
                race_keys(scene@)
            } else {
                sandbox_keys(scene@)
            },
        ),
{
    let ghost start = ops@.map_values(|o: LookupOp| op_view(o));
    let ghost keys = if race {
        race_keys(scene@)
    } else {
        sandbox_keys(scene@)
    };
    let sc = str_chars(scene.as_str());
    let (lo, hi): (u64, u64) = if race {
        (0, 20)
    } else {
        (1, 40)
    };
    let mut n: u64 = lo;
    while n <= hi
        invariant
            lo <= n <= hi + 1,
            hi == (if race { 20u64 } else { 40u64 }),
            lo == (if race { 0u64 } else { 1u64 }),
            sc@ == scene@,
            keys == (if race { race_keys(scene@) } else { sandbox_keys(scene@) }),
            ops@.map_values(|o: LookupOp| op_view(o)) == start + fill_ops(
                keys.take(n - lo),
            ),
        decreases hi + 1 - n,
    {
        let mut key: Vec<char> = Vec::new();
        if race {
            key.push('c');
            key.push('r');
            key.push('_');
        }
        push_chars(&mut key, sc.as_slice());
        key.push('_');
        let digits = dec_u64(n);
        push_chars(&mut key, digits.as_slice());
        proof {
            reveal_strlit("cr_");
            if race {
                assert(key@ =~= "cr_"@ + scene@ + seq!['_'] + dec_spec(n as nat));
            } else {
                assert(key@ =~= scene@ + seq!['_'] + dec_spec(n as nat));
            }
            assert(keys[n - lo] == key@);
        }
        let ghost before = ops@.map_values(|o: LookupOp| op_view(o));
        push_fill_op(ops, key);
        assert(fill_ops(keys.take(n - lo + 1)) =~= fill_ops(keys.take(n - lo)).push(
            fill_ops(keys)[n - lo],
        ));
        n = n + 1;
    }
    assert(keys.take(n - lo) =~= keys);
}

proof fn lemma_hex_upper_has_no_lowercase(b: Seq<u8>)
    ensures
        forall|k: int|
            0 <= k < hex_upper(b).len() ==> !('a' as u32 <= #[trigger] hex_upper(b)[k] as u32
                <= 'z' as u32),
        hex_upper(b).len() == 2 * b.len(),
    decreases b.len(),
{
    if b.len() > 0 {
        lemma_hex_upper_has_no_lowercase(b.drop_last());
        let x = b.last();
        assert(0 <= x / 16 < 16 && 0 <= x % 16 < 16);
    }
}

/// Steps that only fill a missing key keep a key that is there.
proof fn lemma_fill_steps_keep(
    ops: Seq<(Seq<char>, Seq<char>, Seq<char>, bool)>,
    fills: Seq<(Seq<char>, Seq<char>, Seq<char>, bool)>,
    key: Seq<char>,
)
    requires
        lookup_spec(ops, key) is Some,
        forall|j: int| 0 <= j < fills.len() ==> !(#[trigger] fills[j]).3,
    ensures
        lookup_spec(ops + fills, key) == lookup_spec(ops, key),
    decreases fills.len(),
{
    if fills.len() > 0 {
        lemma_fill_steps_keep(ops, fills.drop_last(), key);
        assert((ops + fills).drop_last() =~= ops + fills.drop_last());
        assert((ops + fills).last() == fills.last());
    }
}

proof fn lemma_scene_steps_fill(scenes: Seq<Seq<char>>, race: bool)
    ensures
        forall|j: int| 0 <= j < scenes_ops(scenes, race).len() ==> !(#[trigger] scenes_ops(
            scenes,
            race,
        )[j]).3,
    decreases scenes.len(),
{
    if scenes.len() > 0 {
        lemma_scene_steps_fill(scenes.drop_last(), race);
        let prev = scenes_ops(scenes.drop_last(), race);
        let fills = fill_ops(
            if race {
                race_keys(scenes.last())
            } else {
                sandbox_keys(scenes.last())
            },
        );
        assert forall|j: int| 0 <= j < scenes_ops(scenes, race).len() implies !(#[trigger] scenes_ops(
            scenes,
            race,
        )[j]).3 by {
            if j < prev.len() {
                assert(scenes_ops(scenes, race)[j] == prev[j]);
            } else {
                assert(scenes_ops(scenes, race)[j] == fills[j - prev.len()]);
            }
        }
    }
}

/// Over the base steps, a key holds the last base entry of that hash.
proof fn lemma_base_steps(es: Seq<(Seq<char>, Seq<char>, LevelCategory)>, i: int, n: int)
    requires
        0 <= i < n <= es.len(),
        forall|j: int|
            i < j < es.len() ==> contraption_hash_spec(#[trigger] es[j].1) != contraption_hash_spec(
                es[i].1,
            ),
    ensures
        lookup_spec(
            es.take(n).map_values(
                |e: (Seq<char>, Seq<char>, LevelCategory)|
                    (contraption_hash_spec(e.1), e.0, e.1, true),
            ),
            contraption_hash_spec(es[i].1),
        ) == Some((es[i].0, es[i].1)),
    decreases n,
{
    let f = |e: (Seq<char>, Seq<char>, LevelCategory)| (contraption_hash_spec(e.1), e.0, e.1, true);
    let ops = es.take(n).map_values(f);
    assert(ops.drop_last() =~= es.take(n - 1).map_values(f));
    assert(ops.last() == f(es[n - 1]));
    if n - 1 > i {
        lemma_base_steps(es, i, n - 1);
    }
}

/// A base level's `.contraption` files resolve to that level with its
/// label: the sandbox slot and race track variants only fill keys that no
/// base level holds. (A later base entry of the same hash replaces it.)
pub proof fn lemma_base_level_resolves(es: Seq<(Seq<char>, Seq<char>, LevelCategory)>, i: int)
    requires
        0 <= i < es.len(),
        forall|j: int|
            i < j < es.len() ==> contraption_hash_spec(#[trigger] es[j].1) != contraption_hash_spec(
                es[i].1,
            ),
    ensures
        lookup_spec(lookup_ops_spec(es), upper(contraption_hash_spec(es[i].1))) == Some(
            (es[i].0, es[i].1),
        ),
{
    let h = contraption_hash_spec(es[i].1);
    lemma_hex_upper_has_no_lowercase(sha1_result(vstd::utf8::encode_utf8(es[i].1)).take(10));
    assert(upper(h) =~= h);
    let f = |e: (Seq<char>, Seq<char>, LevelCategory)| (contraption_hash_spec(e.1), e.0, e.1, true);
    let base = es.map_values(f);
    lemma_base_steps(es, i, es.len() as int);
    assert(es.take(es.len() as int) =~= es);
    let sand = scenes_ops(scenes_of(es, LevelCategory::Sandbox, es.len()), false);
    let race = scenes_ops(scenes_of(es, LevelCategory::Race, es.len()), true);
    lemma_scene_steps_fill(scenes_of(es, LevelCategory::Sandbox, es.len()), false);
    lemma_scene_steps_fill(scenes_of(es, LevelCategory::Race, es.len()), true);
    lemma_fill_steps_keep(base, sand, h);
    lemma_fill_steps_keep(base + sand, race, h);
    assert(lookup_ops_spec(es) =~= base + sand + race);
}

/// Every step keys its scene by that scene's hash.
pub open spec fn keyed_by_scene_hash(ops: Seq<(Seq<char>, Seq<char>, Seq<char>, bool)>) -> bool {
    forall|j: int| 0 <= j < ops.len() ==> (#[trigger] ops[j]).0 == contraption_hash_spec(ops[j].2)
}

proof fn lemma_lookup_keyed(ops: Seq<(Seq<char>, Seq<char>, Seq<char>, bool)>, key: Seq<char>)
    requires
        keyed_by_scene_hash(ops),
    ensures
        lookup_spec(ops, key) matches Some((l, s)) ==> contraption_hash_spec(s) == key,
    decreases ops.len(),
{
    if ops.len() > 0 {
        let prev = ops.drop_last();
        assert forall|j: int| 0 <= j < prev.len() implies (#[trigger] prev[j]).0
            == contraption_hash_spec(prev[j].2) by {
            assert(prev[j] == ops[j]);
        }
        lemma_lookup_keyed(prev, key);
        assert(ops.last() == ops[ops.len() - 1]);
    }
}

proof fn lemma_scene_steps_keyed(scenes: Seq<Seq<char>>, race: bool)
    ensures
        keyed_by_scene_hash(scenes_ops(scenes, race)),
    decreases scenes.len(),
{
    if scenes.len() > 0 {
        lemma_scene_steps_keyed(scenes.drop_last(), race);
        let prev = scenes_ops(scenes.drop_last(), race);
        let fills = fill_ops(
            if race {
                race_keys(scenes.last())
            } else {
                sandbox_keys(scenes.last())
            },
        );
        let all = scenes_ops(scenes, race);
        assert(all == prev + fills);
        assert forall|j: int| 0 <= j < all.len() implies (#[trigger] all[j]).0
            == contraption_hash_spec(all[j].2) by {
            if j < prev.len() {
                assert(all[j] == prev[j]);
            } else {
                assert(all[j] == fills[j - prev.len()]);
            }
        }
    }
}

/// ASCII uppercase undoes ASCII lowercase.
pub proof fn lemma_upper_of_lower(s: Seq<char>)
    ensures
        upper(crate::text::lower(s)) == upper(s),
{
    assert forall|k: int| 0 <= k < s.len() implies upper(crate::text::lower(s))[k] == upper(s)[k] by {
        let c = s[k];
        let l = lower_char(c);
        assert(crate::text::lower(s)[k] == l);
        assert(crate::text::lower(s).len() == s.len());
        if 'A' as u32 <= c as u32 <= 'Z' as u32 {
            let u: u32 = ((c as u32) + 32) as u32;
            assert(l == u as char);
            assert((l as u32) == u);
            assert(upper(crate::text::lower(s))[k] == ((u - 32) as u32) as char);
            vstd::utf8::char_u32_cast(c, c as u32);
            assert(((u - 32) as u32) == c as u32);
            assert(upper(s)[k] == c);
        } else if 'a' as u32 <= c as u32 <= 'z' as u32 {
            assert(l == c);
        } else {
            assert(l == c);
            assert(upper(s)[k] == c);
        }
    }
    assert(upper(crate::text::lower(s)) =~= upper(s));
}

/// A `.contraption` file stem resolves only to a level whose hash it is,
/// in uppercase; and its case does not matter: the stem in lowercase
/// resolves to the same level.
pub proof fn lemma_stem_resolves_to_its_hash(
    es: Seq<(Seq<char>, Seq<char>, LevelCategory)>,
    stem: Seq<char>,
)
    ensures
        lookup_spec(lookup_ops_spec(es), upper(stem)) matches Some((label, scene))
            ==> contraption_hash_spec(scene) == upper(stem),
        lookup_spec(lookup_ops_spec(es), upper(crate::text::lower(stem))) == lookup_spec(
            lookup_ops_spec(es),
            upper(stem),
        ),
{
    let all = lookup_ops_spec(es);
    lemma_lookup_ops_keyed(es);
    lemma_lookup_keyed(all, upper(stem));
    lemma_upper_of_lower(stem);
}

/// Every step of the lookup's steps keys its scene by that scene's hash.
pub proof fn lemma_lookup_ops_keyed(es: Seq<(Seq<char>, Seq<char>, LevelCategory)>)
    ensures
        keyed_by_scene_hash(lookup_ops_spec(es)),
{
    let f = |e: (Seq<char>, Seq<char>, LevelCategory)| (contraption_hash_spec(e.1), e.0, e.1, true);
    let base = es.map_values(f);
    let sand = scenes_ops(scenes_of(es, LevelCategory::Sandbox, es.len()), false);
    let race = scenes_ops(scenes_of(es, LevelCategory::Race, es.len()), true);
    lemma_scene_steps_keyed(scenes_of(es, LevelCategory::Sandbox, es.len()), false);
    lemma_scene_steps_keyed(scenes_of(es, LevelCategory::Race, es.len()), true);
    let all = lookup_ops_spec(es);
    assert(all =~= base + sand + race);
    assert forall|j: int| 0 <= j < all.len() implies (#[trigger] all[j]).0 == contraption_hash_spec(
        all[j].2,
    ) by {
        if j < base.len() {
            assert(all[j] == base[j]);
        } else if j < base.len() + sand.len() {
            assert(all[j] == sand[j - base.len()]);
        } else {
            assert(all[j] == race[j - base.len() - sand.len()]);
        }
    }
}

impl LevelLookup {
    #[verifier::type_invariant]
    closed spec fn keyed(self) -> bool {
        keyed_by_scene_hash(ops_view(self))
    }

    /// The number of steps the lookup was built from.
    pub fn op_count(&self) -> (r: usize)
        ensures
            r == ops_view(*self).len(),
    {
        self.ops.len()
    }
}

/// Builds the `.contraption` stem lookup from the base levels.
pub fn build_lookup(entries: &[LevelEntry]) -> (r: LevelLookup)
    ensures
        ops_view(r) == lookup_ops_spec(entries_view(entries@)),
{
    let ghost ev = entries_view(entries@);
    let mut ops: Vec<LookupOp> = Vec::new();
    let mut i: usize = 0;
    while i < entries.len()
        invariant
            ev == entries_view(entries@),
            i <= entries@.len(),
            ops@.map_values(|o: LookupOp| op_view(o)) == ev.take(i as int).map_values(
                |e: (Seq<char>, Seq<char>, LevelCategory)| (contraption_hash_spec(e.1), e.0, e.1, true),
            ),
        decreases entries.len() - i,
    {
        let e = &entries[i];
        assert(ev[i as int] == entry_view(*e));
        let ghost before = ops@.map_values(|o: LookupOp| op_view(o));
        let hash = contraption_hash(e.scene.as_str());
        let op = LookupOp {
            hash,
            label: string_copy(&e.label),
            scene: string_copy(&e.scene),
            replace: true,
        };
        assert(op_view(op) == (contraption_hash_spec(ev[i as int].1), ev[i as int].0, ev[i as int].1, true));
        ops.push(op);
        assert(ops@.map_values(|o: LookupOp| op_view(o)) =~= before.push(op_view(op)));
        assert(ev.take(i + 1) =~= ev.take(i as int).push(ev[i as int]));
        assert(ops@.map_values(|o: LookupOp| op_view(o)) =~= ev.take(i + 1).map_values(
            |e: (Seq<char>, Seq<char>, LevelCategory)| (contraption_hash_spec(e.1), e.0, e.1, true),
        ));
        i = i + 1;
    }
    assert(ev.take(i as int) =~= ev);
    let sandbox = collect_scenes(entries, LevelCategory::Sandbox);
    let race = collect_scenes(entries, LevelCategory::Race);
    let ghost base = ops@.map_values(|o: LookupOp| op_view(o));
    let ghost sv = crate::text::strings_view(sandbox@);
    let mut k: usize = 0;
    while k < sandbox.len()
        invariant
            sv == crate::text::strings_view(sandbox@),
            k <= sandbox@.len(),
            ops@.map_values(|o: LookupOp| op_view(o)) == base + scenes_ops(sv.take(k as int), false),
        decreases sandbox.len() - k,
    {
        push_scene_ops(&mut ops, &sandbox[k], false);
        assert(sv.take(k + 1).drop_last() =~= sv.take(k as int));
        assert(sv[k as int] == sandbox@[k as int]@);
        k = k + 1;
    }
    assert(sv.take(k as int) =~= sv);
    let ghost mid = ops@.map_values(|o: LookupOp| op_view(o));
    let ghost rv = crate::text::strings_view(race@);
    let mut k: usize = 0;
    while k < race.len()
        invariant
            rv == crate::text::strings_view(race@),
            k <= race@.len(),
            ops@.map_values(|o: LookupOp| op_view(o)) == mid + scenes_ops(rv.take(k as int), true),
        decreases race.len() - k,
    {
        push_scene_ops(&mut ops, &race[k], true);
        assert(rv.take(k + 1).drop_last() =~= rv.take(k as int));
        assert(rv[k as int] == race@[k as int]@);
        k = k + 1;
    }
    assert(rv.take(k as int) =~= rv);
    proof {
        lemma_lookup_ops_keyed(ev);
    }
    LevelLookup { ops }
}

/// ASCII uppercase of a char sequence.
pub open spec fn upper(s: Seq<char>) -> Seq<char> {
    s.map_values(
        |c: char|
            if 'a' as u32 <= c as u32 <= 'z' as u32 {
                ((c as u32) - 32) as char
            } else {
                c
            },
    )
}

/// Look up the level of a `.contraption` file stem (in any case):
/// (display label, scene key). The label is empty for sandbox slot and
/// race track variants.
pub fn contraption_level_name(lookup: &LevelLookup, filename_stem: &str) -> (r: Option<
    (String, String),
>)
    ensures
        match r {
            Some((label, scene)) => lookup_spec(ops_view(*lookup), upper(filename_stem@)) == Some(
                (label@, scene@),
            ),
            None => lookup_spec(ops_view(*lookup), upper(filename_stem@)) is None,
        },
        r matches Some((label, scene)) ==> contraption_hash_spec(scene@) == upper(filename_stem@),
{
    proof {
        use_type_invariant(lookup);
        lemma_lookup_keyed(ops_view(*lookup), upper(filename_stem@));
    }
    let s = str_chars(filename_stem);
    let mut up: Vec<char> = Vec::new();
    let mut i: usize = 0;
    while i < s.len()
        invariant
            s@ == filename_stem@,
            i <= s@.len(),
            up@ == upper(s@.take(i as int)),
        decreases s.len() - i,
    {
        let c = s[i];
        let u = if 'a' as u32 <= c as u32 && c as u32 <= 'z' as u32 {
            ((c as u32 - 32) as u8) as char
        } else {
            c
        };
        up.push(u);
        i = i + 1;
        assert(up@ =~= upper(s@.take(i as int)));
    }
    assert(s@.take(i as int) =~= s@);
    // forward scan keeps what the lookup holds so far
    let ghost ov = ops_view(*lookup);
    let mut found: Option<(String, String)> = None;
    let mut j: usize = 0;
    while j < lookup.ops.len()
        invariant
            ov == ops_view(*lookup),
            up@ == upper(filename_stem@),
            j <= lookup.ops@.len(),
            lookup_spec(ov.take(j as int), up@) == (match found {
                Some((l, sc)) => Some((l@, sc@)),
                None => None,
            }),
        decreases lookup.ops.len() - j,
    {
        let o = &lookup.ops[j];
        assert(ov[j as int] == op_view(*o));
        assert(ov.take(j + 1).drop_last() =~= ov.take(j as int));
        let hc = str_chars(o.hash.as_str());
        if chars_eq(hc.as_slice(), up.as_slice()) && (o.replace || found.is_none()) {
            found = Some((string_copy(&o.label), string_copy(&o.scene)));
        }
        j = j + 1;
    }
    assert(ov.take(j as int) =~= ov);
    found
}

} // verus!
