//! Single-file asset rules: terrain texture lookups with a fixed outline
//! table, background theme detection by level key and object names, and the
//! props-tint and render-skip name rules.

use vstd::prelude::*;
use crate::text::{
    chars_to_string, strip_prefix, strip_prefix_lit,
    contains, contains_lit, ends_with, ends_with_lit, eq_lit, first_some, lemma_first_some_end,
    lemma_first_some_step, lower, lower_chars, opt_view, replace_all, replace_lit, starts_with,
    starts_with_lit, str_chars, strings_view,
};
use crate::data::assets::embedded::{file_bytes, files_view, ProjectAssets};
use crate::data::assets::unitypackage_loader::{utf8_lossy, utf8_lossy_result};
use crate::order::{sorted_insert, strictly_sorted};
use crate::data::assets::terrain::{
    dark_terrain, level_splat1_rule, level_splat1_rule_map, normalize_terrain,
    normalize_terrain_spec, prefers_prefab_splat1, resolve_terrain_base,
    resolve_terrain_base_spec, terrain_fill, terrain_fill_map, terrain_splat0,
    terrain_splat0_map, prefers_prefab_splat1_key, dark_terrain_map,
};

verus! {

/// The game assets bundled with the editor, by relative path
/// (e.g. `"sprites/IngameAtlas.png"`).
pub struct EmbeddedAssets {
    pub files: ProjectAssets,
}

/// Read asset bytes by relative path.
pub fn read_asset(assets: &EmbeddedAssets, key: &str) -> (r: Option<Vec<u8>>)
    ensures
        match r {
            Some(b) => file_bytes(files_view(assets.files), key@) == Some(b@),
            None => file_bytes(files_view(assets.files), key@) is None,
        },
{
    assets.files.get(key)
}

/// Read an asset as (lossily decoded) UTF-8 text.
pub fn read_asset_text(assets: &EmbeddedAssets, key: &str) -> (r: Option<String>)
    ensures
        match r {
            Some(t) => file_bytes(files_view(assets.files), key@) matches Some(b) && t@
                == utf8_lossy_result(b),
            None => file_bytes(files_view(assets.files), key@) is None,
        },
{
    match read_asset(assets, key) {
        Some(b) => Some(utf8_lossy(b.as_slice())),
        None => None,
    }
}

/// An asset path under `prefix`, given relative to it, that ends with
/// `suffix`.
pub open spec fn listed_asset(
    fs: Seq<(Seq<char>, Seq<u8>)>,
    prefix: Seq<char>,
    suffix: Seq<char>,
    t: Seq<char>,
) -> bool {
    exists|i: int|
        0 <= i < fs.len() && (#[trigger] strip_prefix(fs[i].0, prefix)) == Some(t) && ends_with(
            t,
            suffix,
        )
}

/// The asset paths under `prefix` that end with `suffix`, relative to
/// `prefix`, sorted, each once.
pub fn list_asset_paths(assets: &EmbeddedAssets, prefix: &str, suffix: &str) -> (r: Vec<String>)
    ensures
        strictly_sorted(strings_view(r@)),
        forall|t: Seq<char>|
            #[trigger] strings_view(r@).contains(t) <==> listed_asset(
                files_view(assets.files),
                prefix@,
                suffix@,
                t,
            ),
{
    let ghost fs = files_view(assets.files);
    let mut out: Vec<String> = Vec::new();
    let mut i: usize = 0;
    while i < assets.files.files.len()
        invariant
            fs == files_view(assets.files),
            i <= fs.len(),
            strictly_sorted(strings_view(out@)),
            forall|t: Seq<char>|
                #[trigger] strings_view(out@).contains(t) <==> listed_asset(
                    fs.take(i as int),
                    prefix@,
                    suffix@,
                    t,
                ),
        decreases assets.files.files.len() - i,
    {
        let f = &assets.files.files[i];
        assert(fs[i as int] == (f.path@, f.data@));
        let pc = str_chars(f.path.as_str());
        let rel = strip_prefix_lit(pc.as_slice(), prefix);
        let mut keep: Option<Vec<char>> = None;
        match rel {
            Some(r) => {
                if ends_with_lit(r.as_slice(), suffix) {
                    keep = Some(r);
                }
            },
            None => {},
        }
        let ghost kv: Option<Seq<char>> = match &keep {
            Some(r) => Some(r@),
            None => None,
        };
        assert(kv == (match strip_prefix(fs[i as int].0, prefix@) {
            Some(r) => if ends_with(r, suffix@) {
                Some(r)
            } else {
                None::<Seq<char>>
            },
            None => None,
        }));
        match keep {
            Some(r) => {
                sorted_insert(&mut out, chars_to_string(r.as_slice()));
            },
            None => {},
        }
        assert forall|t: Seq<char>|
            #[trigger] strings_view(out@).contains(t) <==> listed_asset(
                fs.take(i + 1),
                prefix@,
                suffix@,
                t,
            ) by {
            let pre = fs.take(i as int);
            let post = fs.take(i + 1);
            if listed_asset(post, prefix@, suffix@, t) {
                let k = choose|k: int|
                    0 <= k < post.len() && (#[trigger] strip_prefix(post[k].0, prefix@)) == Some(t)
                        && ends_with(t, suffix@);
                if k < i {
                    assert(pre[k] == post[k]);
                    assert(listed_asset(pre, prefix@, suffix@, t));
                } else {
                    assert(post[k] == fs[i as int]);
                    assert(kv == Some(t));
                }
            }
            if listed_asset(pre, prefix@, suffix@, t) {
                let k = choose|k: int|
                    0 <= k < pre.len() && (#[trigger] strip_prefix(pre[k].0, prefix@)) == Some(t)
                        && ends_with(t, suffix@);
                assert(post[k] == pre[k]);
            }
            if let Some(r) = kv {
                if t == r {
                    assert(post[i as int] == fs[i as int]);
                }
            }
        }
        i = i + 1;
    }
    assert(fs.take(i as int) =~= fs);
    out
}

pub open spec fn legacy_splat1_spec(name: Seq<char>) -> Option<Seq<char>> {
    match legacy_terrain_splat1(normalize_terrain_spec(name)) {
        Some(v) => Some(v),
        None => legacy_terrain_splat1(resolve_terrain_base_spec(name)),
    }
}

/// Get the fill texture filename for a terrain object name.
pub fn get_terrain_fill_texture(terrain_name: &str) -> (r: Option<&'static str>)
    ensures
        opt_view(r) == (match terrain_fill(normalize_terrain_spec(terrain_name@)) {
            Some(v) => Some(v),
            None => terrain_fill(resolve_terrain_base_spec(terrain_name@)),
        }),
{
    let key = normalize_terrain(terrain_name);
    match terrain_fill_map(key.as_slice()) {
        Some(v) => Some(v),
        None => {
            let base = resolve_terrain_base(terrain_name);
            terrain_fill_map(base.as_slice())
        },
    }
}

/// Get Splat0 (surface/grass) texture filename.
pub fn get_terrain_splat0(terrain_name: &str) -> (r: Option<&'static str>)
    ensures
        opt_view(r) == (match terrain_splat0(normalize_terrain_spec(terrain_name@)) {
            Some(v) => Some(v),
            None => terrain_splat0(resolve_terrain_base_spec(terrain_name@)),
        }),
{
    let key = normalize_terrain(terrain_name);
    match terrain_splat0_map(key.as_slice()) {
        Some(v) => Some(v),
        None => {
            let base = resolve_terrain_base(terrain_name);
            terrain_splat0_map(base.as_slice())
        },
    }
}

/// Get Splat1 (outline) texture filename.
pub fn get_terrain_splat1(terrain_name: &str) -> (r: Option<&'static str>)
    ensures
        opt_view(r) == legacy_splat1_spec(terrain_name@),
{
    let key = normalize_terrain(terrain_name);
    match legacy_terrain_splat1_map(key.as_slice()) {
        Some(v) => Some(v),
        None => {
            let base = resolve_terrain_base(terrain_name);
            legacy_terrain_splat1_map(base.as_slice())
        },
    }
}

/// Get Splat1 (outline) texture filename with the Episode 6 MM/Maya rule; the
/// level key does not take part in the choice.
pub fn get_terrain_splat1_for_level(_level_key: &str, terrain_name: &str) -> (r: Option<&'static str>)
    ensures
        opt_view(r) == (match level_splat1_rule(normalize_terrain_spec(terrain_name@)) {
            Some(v) => Some(v),
            None => legacy_splat1_spec(terrain_name@),
        }),
{
    let key = normalize_terrain(terrain_name);
    match level_splat1_rule_map(key.as_slice()) {
        Some(v) => Some(v),
        None => get_terrain_splat1(terrain_name),
    }
}

/// Maya cave / temple / dark prefabs that keep their prefab-authored border.
pub fn terrain_splat1_prefers_prefab_over_level_refs(terrain_name: &str) -> (r: bool)
    ensures
        r == prefers_prefab_splat1(normalize_terrain_spec(terrain_name@)),
{
    let key = normalize_terrain(terrain_name);
    prefers_prefab_splat1_key(key.as_slice())
}

/// Whether this is a "dark" terrain (underground fill).
pub fn is_dark_terrain(terrain_name: &str) -> (r: bool)
    ensures
        r == (dark_terrain(normalize_terrain_spec(terrain_name@)) is Some),
{
    let key = normalize_terrain(terrain_name);
    dark_terrain_map(key.as_slice()).is_some()
}

/// The level number part of an Episode 6 key: lower-cased, with every
/// `episode_6_level_` and `_data` removed.
pub open spec fn ep6_suffix(key: Seq<char>) -> Seq<char> {
    replace_all(replace_all(lower(key), "episode_6_level_"@, ""@), "_data"@, ""@)
}

pub open spec fn ep6_theme_spec(key: Seq<char>) -> Option<Seq<char>> {
    ep6_theme_for_suffix(ep6_suffix(key))
}

/// Exact level-key to theme mapping for Episode 6 (Maya) levels, derived from
/// the Unity loader prefab references.
pub fn ep6_theme_for_key(key: &str) -> (r: Option<&'static str>)
    ensures
        opt_view(r) == ep6_theme_spec(key@),
{
    proof {
        reveal_strlit("episode_6_level_");
        reveal_strlit("_data");
    }
    let k = str_chars(key);
    let lowered = lower_chars(k.as_slice());
    let a = replace_lit(lowered.as_slice(), "episode_6_level_", "");
    let b = replace_lit(a.as_slice(), "_data", "");
    ep6_theme_for_suffix_map(b.as_slice())
}

pub open spec fn sandbox_theme_spec(key: Seq<char>) -> Option<Seq<char>> {
    let lowered = lower(key);
    if contains(lowered, "episode_6_dark"@) {
        Some("MayaCave2Dark"@)
    } else if contains(lowered, "episode_6_ice"@) {
        Some("MayaTemple"@)
    } else if contains(lowered, "episode_6_tower"@) {
        Some("Maya"@)
    } else {
        None
    }
}

/// Exact sandbox level-key to theme.
pub fn sandbox_theme_for_key(key: &str) -> (r: Option<&'static str>)
    ensures
        opt_view(r) == sandbox_theme_spec(key@),
{
    let k = str_chars(key);
    let lowered = lower_chars(k.as_slice());
    if contains_lit(lowered.as_slice(), "episode_6_dark") {
        Some("MayaCave2Dark")
    } else if contains_lit(lowered.as_slice(), "episode_6_ice") {
        Some("MayaTemple")
    } else if contains_lit(lowered.as_slice(), "episode_6_tower") {
        Some("Maya")
    } else {
        None
    }
}

pub open spec fn name_themes(names: Seq<Seq<char>>) -> Seq<Option<Seq<char>>> {
    names.map_values(|n: Seq<char>| legacy_pattern_theme(n))
}

pub open spec fn detect_bg_theme_spec(level_key: Seq<char>, names: Seq<Seq<char>>) -> Option<
    Seq<char>,
> {
    match ep6_theme_spec(level_key) {
        Some(t) => Some(t),
        None => match sandbox_theme_spec(level_key) {
            Some(t) => Some(t),
            None => first_some(name_themes(names)),
        },
    }
}

/// Detect which background theme to use: the Episode 6 table, then the
/// sandbox table, then the first object name holding a known background
/// pattern.
pub fn detect_bg_theme(level_key: &str, object_names: &[String]) -> (r: Option<&'static str>)
    ensures
        opt_view(r) == detect_bg_theme_spec(level_key@, strings_view(object_names@)),
{
    if let Some(theme) = ep6_theme_for_key(level_key) {
        return Some(theme);
    }
    if let Some(theme) = sandbox_theme_for_key(level_key) {
        return Some(theme);
    }
    let ghost themes = name_themes(strings_view(object_names@));
    let mut i: usize = 0;
    assert(themes.skip(0) =~= themes);
    while i < object_names.len()
        invariant
            i <= object_names@.len(),
            themes == name_themes(strings_view(object_names@)),
            ep6_theme_spec(level_key@) is None,
            sandbox_theme_spec(level_key@) is None,
            themes.len() == object_names@.len(),
            first_some(themes) == first_some(themes.skip(i as int)),
        decreases object_names.len() - i,
    {
        proof {
            assert(themes.skip(0) =~= themes);
            lemma_first_some_step(themes, i as int);
        }
        let name = str_chars(object_names[i].as_str());
        let t = legacy_pattern_theme_of(name.as_slice());
        assert(themes[i as int] == legacy_pattern_theme(object_names@[i as int]@));
        if t.is_some() {
            assert(first_some(themes.skip(i as int)) == themes[i as int]);
            return t;
        }
        i = i + 1;
    }
    proof {
        lemma_first_some_end(themes);
    }
    None
}

pub open spec fn skip_props_tint_spec(name: Seq<char>) -> bool {
    ||| starts_with(name, "Crystal_"@)
    ||| name == "Glow"@
    ||| starts_with(name, "Glow_"@)
    ||| starts_with(name, "GoalArea"@)
    ||| starts_with(name, "GoalSprite"@)
    ||| starts_with(name, "Lit"@)
    ||| starts_with(name, "Secret_"@)
    ||| starts_with(name, "Star_"@)
}

/// Sprites that keep their original material and are not tinted by the
/// night / morning props materials.
pub fn skip_props_tint(name: &str) -> (r: bool)
    ensures
        r == skip_props_tint_spec(name@),
{
    let n = str_chars(name);
    let s = n.as_slice();
    starts_with_lit(s, "Crystal_") || eq_lit(s, "Glow") || starts_with_lit(s, "Glow_")
        || starts_with_lit(s, "GoalArea") || starts_with_lit(s, "GoalSprite") || starts_with_lit(
        s,
        "Lit",
    ) || starts_with_lit(s, "Secret_") || starts_with_lit(s, "Star_")
}

pub open spec fn should_skip_render_spec(name: Seq<char>) -> bool {
    ||| starts_with(name, "Cloud"@) && ends_with(name, "Set"@)
    ||| name == "Props"@
    ||| name == "Prop"@
    ||| name == "Challenges"@
    ||| name == "DessertPlaces"@
    ||| name == "LitArea"@
    ||| name == "reference"@
    ||| contains(name, "CameraSystem"@)
    ||| contains(name, "LevelManager"@)
    ||| contains(name, "LevelStart"@)
    ||| contains(name, "Background"@)
    ||| contains(name, "Decoration "@)
    ||| contains(name, "DontUsePart"@)
    ||| contains(name, "Challenge"@)
    ||| contains(name, "Tutorial"@)
    ||| contains(name, "Achievement"@)
}

/// Whether this object should be skipped during rendering: cloud sets, the
/// container names, and names that hold a system or decoration marker.
pub fn should_skip_render(name: &str) -> (r: bool)
    ensures
        r == should_skip_render_spec(name@),
{
    let n = str_chars(name);
    let s = n.as_slice();
    if starts_with_lit(s, "Cloud") && ends_with_lit(s, "Set") {
        return true;
    }
    if eq_lit(s, "Props") || eq_lit(s, "Prop") || eq_lit(s, "Challenges") || eq_lit(
        s,
        "DessertPlaces",
    ) || eq_lit(s, "LitArea") || eq_lit(s, "reference") {
        return true;
    }
    contains_lit(s, "CameraSystem") || contains_lit(s, "LevelManager") || contains_lit(
        s,
        "LevelStart",
    ) || contains_lit(s, "Background") || contains_lit(s, "Decoration ") || contains_lit(
        s,
        "DontUsePart",
    ) || contains_lit(s, "Challenge") || contains_lit(s, "Tutorial") || contains_lit(
        s,
        "Achievement",
    )
}

/// Splat1 table of the single-file asset module.
pub open spec fn legacy_terrain_splat1(key: Seq<char>) -> Option<Seq<char>> {
    if key == "e2dTerrainBase"@ {
        Some("Ground_Rocks_Outline_Texture.png"@)
    } else if key == "e2dTerrainBase_02"@ {
        Some("Ground_Rocks_Outline_Texture_02.png"@)
    } else if key == "e2dTerrainBase_04"@ {
        Some("Ground_Rocks_Outline_Texture_04.png"@)
    } else if key == "e2dTerrainBase_05_night"@ {
        Some("Ground_Rocks_Outline_Texture_05.png"@)
    } else if key == "e2dTerrainBase_Halloween"@ {
        Some("Ground_Halloween_Outline_Texture.png"@)
    } else if key == "e2dTerrainBase_MM_Ice"@ {
        Some("Ground_Ice_Outline.png"@)
    } else if key == "e2dTerrainBase_morning"@ {
        Some("Ground_Rocks_Outline_Texture_06.png"@)
    } else if key == "e2dTerrainBase_MM_rock"@ {
        Some("Border.png"@)
    } else if key == "e2dTerrainBase_MM_sand"@ {
        Some("Border.png"@)
    } else if key == "e2dTerrainBase_MM_TempleDarkRock"@ {
        Some("Border_Maya_Cave.png"@)
    } else if key == "e2dTerrainBase_MM_caveSand"@ {
        Some("Border_Maya_Cave.png"@)
    } else if key == "e2dTerrainDark_02"@ {
        Some("Ground_Rocks_Outline_Texture.png"@)
    } else if key == "e2dTerrainDark_03"@ {
        Some("Ground_Rocks_Outline_Texture_05.png"@)
    } else if key == "e2dTerrainDark_05_night(150)"@ {
        Some("Ground_Rocks_Outline_Texture_04.png"@)
    } else if key == "e2dTerrainDark_MM"@ {
        Some("Border_Maya_Cave.png"@)
    } else if key == "e2dTerrainDark_MM_CaveSand"@ {
        Some("Border_Maya_Cave.png"@)
    } else if key == "e2dTerrainDark_MM_rock"@ {
        Some("Border.png"@)
    } else if key == "e2dTerrainDark_MM_TempleDarkRock"@ {
        Some("Border_Maya_Cave.png"@)
    } else {
        None
    }
}

/// Looks `key` up in the single-file Splat1 table.
pub fn legacy_terrain_splat1_map(key: &[char]) -> (r: Option<&'static str>)
    ensures
        opt_view(r) == legacy_terrain_splat1(key@),
{
    if eq_lit(key, "e2dTerrainBase") {
        return Some("Ground_Rocks_Outline_Texture.png");
    }
    if eq_lit(key, "e2dTerrainBase_02") {
        return Some("Ground_Rocks_Outline_Texture_02.png");
    }
    if eq_lit(key, "e2dTerrainBase_04") {
        return Some("Ground_Rocks_Outline_Texture_04.png");
    }
    if eq_lit(key, "e2dTerrainBase_05_night") {
        return Some("Ground_Rocks_Outline_Texture_05.png");
    }
    if eq_lit(key, "e2dTerrainBase_Halloween") {
        return Some("Ground_Halloween_Outline_Texture.png");
    }
    if eq_lit(key, "e2dTerrainBase_MM_Ice") {
        return Some("Ground_Ice_Outline.png");
    }
    if eq_lit(key, "e2dTerrainBase_morning") {
        return Some("Ground_Rocks_Outline_Texture_06.png");
    }
    if eq_lit(key, "e2dTerrainBase_MM_rock") {
        return Some("Border.png");
    }
    if eq_lit(key, "e2dTerrainBase_MM_sand") {
        return Some("Border.png");
    }
    if eq_lit(key, "e2dTerrainBase_MM_TempleDarkRock") {
        return Some("Border_Maya_Cave.png");
    }
    if eq_lit(key, "e2dTerrainBase_MM_caveSand") {
        return Some("Border_Maya_Cave.png");
    }
    if eq_lit(key, "e2dTerrainDark_02") {
        return Some("Ground_Rocks_Outline_Texture.png");
    }
    if eq_lit(key, "e2dTerrainDark_03") {
        return Some("Ground_Rocks_Outline_Texture_05.png");
    }
    if eq_lit(key, "e2dTerrainDark_05_night(150)") {
        return Some("Ground_Rocks_Outline_Texture_04.png");
    }
    if eq_lit(key, "e2dTerrainDark_MM") {
        return Some("Border_Maya_Cave.png");
    }
    if eq_lit(key, "e2dTerrainDark_MM_CaveSand") {
        return Some("Border_Maya_Cave.png");
    }
    if eq_lit(key, "e2dTerrainDark_MM_rock") {
        return Some("Border.png");
    }
    if eq_lit(key, "e2dTerrainDark_MM_TempleDarkRock") {
        return Some("Border_Maya_Cave.png");
    }
    None
}

/// Episode 6 level suffix (lower-case) to its background theme, from the loader prefab references.
pub open spec fn ep6_theme_for_suffix(key: Seq<char>) -> Option<Seq<char>> {
    if key == "1"@ {
        Some("Maya"@)
    } else if key == "2"@ {
        Some("Maya"@)
    } else if key == "3"@ {
        Some("Maya"@)
    } else if key == "4"@ {
        Some("Maya"@)
    } else if key == "33"@ {
        Some("Maya"@)
    } else if key == "34"@ {
        Some("Maya"@)
    } else if key == "35"@ {
        Some("Maya"@)
    } else if key == "36"@ {
        Some("Maya"@)
    } else if key == "i"@ {
        Some("Maya"@)
    } else if key == "ix"@ {
        Some("Maya"@)
    } else if key == "5"@ {
        Some("MayaCave2Dark"@)
    } else if key == "6"@ {
        Some("MayaCave2Dark"@)
    } else if key == "7"@ {
        Some("MayaCave2Dark"@)
    } else if key == "8"@ {
        Some("MayaCave2Dark"@)
    } else if key == "17"@ {
        Some("MayaCave2Dark"@)
    } else if key == "18"@ {
        Some("MayaCave2Dark"@)
    } else if key == "19"@ {
        Some("MayaCave2Dark"@)
    } else if key == "20"@ {
        Some("MayaCave2Dark"@)
    } else if key == "29"@ {
        Some("MayaCave2Dark"@)
    } else if key == "30"@ {
        Some("MayaCave2Dark"@)
    } else if key == "31"@ {
        Some("MayaCave2Dark"@)
    } else if key == "32"@ {
        Some("MayaCave2Dark"@)
    } else if key == "ii"@ {
        Some("MayaCave2Dark"@)
    } else if key == "v"@ {
        Some("MayaCave2Dark"@)
    } else if key == "viii"@ {
        Some("MayaCave2Dark"@)
    } else if key == "9"@ {
        Some("MayaHigh"@)
    } else if key == "10"@ {
        Some("MayaHigh"@)
    } else if key == "11"@ {
        Some("MayaHigh"@)
    } else if key == "12"@ {
        Some("MayaHigh"@)
    } else if key == "25"@ {
        Some("MayaHigh"@)
    } else if key == "26"@ {
        Some("MayaHigh"@)
    } else if key == "27"@ {
        Some("MayaHigh"@)
    } else if key == "28"@ {
        Some("MayaHigh"@)
    } else if key == "iii"@ {
        Some("MayaHigh"@)
    } else if key == "vii"@ {
        Some("MayaHigh"@)
    } else if key == "13"@ {
        Some("MayaTemple"@)
    } else if key == "14"@ {
        Some("MayaTemple"@)
    } else if key == "15"@ {
        Some("MayaTemple"@)
    } else if key == "16"@ {
        Some("MayaTemple"@)
    } else if key == "21"@ {
        Some("MayaTemple"@)
    } else if key == "22"@ {
        Some("MayaTemple"@)
    } else if key == "23"@ {
        Some("MayaTemple"@)
    } else if key == "24"@ {
        Some("MayaTemple"@)
    } else if key == "iv"@ {
        Some("MayaTemple"@)
    } else if key == "vi"@ {
        Some("MayaTemple"@)
    } else {
        None
    }
}

/// Looks an Episode 6 level suffix up.
fn ep6_theme_for_suffix_map(key: &[char]) -> (r: Option<&'static str>)
    ensures
        opt_view(r) == ep6_theme_for_suffix(key@),
{
    if eq_lit(key, "1") {
        return Some("Maya");
    }
    if eq_lit(key, "2") {
        return Some("Maya");
    }
    if eq_lit(key, "3") {
        return Some("Maya");
    }
    if eq_lit(key, "4") {
        return Some("Maya");
    }
    if eq_lit(key, "33") {
        return Some("Maya");
    }
    if eq_lit(key, "34") {
        return Some("Maya");
    }
    if eq_lit(key, "35") {
        return Some("Maya");
    }
    if eq_lit(key, "36") {
        return Some("Maya");
    }
    if eq_lit(key, "i") {
        return Some("Maya");
    }
    if eq_lit(key, "ix") {
        return Some("Maya");
    }
    if eq_lit(key, "5") {
        return Some("MayaCave2Dark");
    }
    if eq_lit(key, "6") {
        return Some("MayaCave2Dark");
    }
    if eq_lit(key, "7") {
        return Some("MayaCave2Dark");
    }
    if eq_lit(key, "8") {
        return Some("MayaCave2Dark");
    }
    if eq_lit(key, "17") {
        return Some("MayaCave2Dark");
    }
    if eq_lit(key, "18") {
        return Some("MayaCave2Dark");
    }
    if eq_lit(key, "19") {
        return Some("MayaCave2Dark");
    }
    if eq_lit(key, "20") {
        return Some("MayaCave2Dark");
    }
    if eq_lit(key, "29") {
        return Some("MayaCave2Dark");
    }
    if eq_lit(key, "30") {
        return Some("MayaCave2Dark");
    }
    if eq_lit(key, "31") {
        return Some("MayaCave2Dark");
    }
    if eq_lit(key, "32") {
        return Some("MayaCave2Dark");
    }
    if eq_lit(key, "ii") {
        return Some("MayaCave2Dark");
    }
    if eq_lit(key, "v") {
        return Some("MayaCave2Dark");
    }
    if eq_lit(key, "viii") {
        return Some("MayaCave2Dark");
    }
    if eq_lit(key, "9") {
        return Some("MayaHigh");
    }
    if eq_lit(key, "10") {
        return Some("MayaHigh");
    }
    if eq_lit(key, "11") {
        return Some("MayaHigh");
    }
    if eq_lit(key, "12") {
        return Some("MayaHigh");
    }
    if eq_lit(key, "25") {
        return Some("MayaHigh");
    }
    if eq_lit(key, "26") {
        return Some("MayaHigh");
    }
    if eq_lit(key, "27") {
        return Some("MayaHigh");
    }
    if eq_lit(key, "28") {
        return Some("MayaHigh");
    }
    if eq_lit(key, "iii") {
        return Some("MayaHigh");
    }
    if eq_lit(key, "vii") {
        return Some("MayaHigh");
    }
    if eq_lit(key, "13") {
        return Some("MayaTemple");
    }
    if eq_lit(key, "14") {
        return Some("MayaTemple");
    }
    if eq_lit(key, "15") {
        return Some("MayaTemple");
    }
    if eq_lit(key, "16") {
        return Some("MayaTemple");
    }
    if eq_lit(key, "21") {
        return Some("MayaTemple");
    }
    if eq_lit(key, "22") {
        return Some("MayaTemple");
    }
    if eq_lit(key, "23") {
        return Some("MayaTemple");
    }
    if eq_lit(key, "24") {
        return Some("MayaTemple");
    }
    if eq_lit(key, "iv") {
        return Some("MayaTemple");
    }
    if eq_lit(key, "vi") {
        return Some("MayaTemple");
    }
    None
}

/// The theme of the first background pattern (in priority order) that `name` contains.
pub open spec fn legacy_pattern_theme(name: Seq<char>) -> Option<Seq<char>> {
    if contains(name, "MM_Cave_02_SET_DARK"@) {
        Some("MayaCave2Dark"@)
    } else if contains(name, "MM_Cave_01_SET_DARK"@) {
        Some("MayaCaveDark"@)
    } else if contains(name, "MM_Cave"@) {
        Some("MayaCave"@)
    } else if contains(name, "MM_Temple"@) {
        Some("MayaTemple"@)
    } else if contains(name, "MM_High"@) {
        Some("MayaHigh"@)
    } else if contains(name, "MM_01_SET"@) {
        Some("Maya"@)
    } else if contains(name, "MayaCave2Dark"@) {
        Some("MayaCave2Dark"@)
    } else if contains(name, "MayaCaveDark"@) {
        Some("MayaCaveDark"@)
    } else if contains(name, "MayaCave"@) {
        Some("MayaCave"@)
    } else if contains(name, "MayaTemple"@) {
        Some("MayaTemple"@)
    } else if contains(name, "MayaHigh"@) {
        Some("MayaHigh"@)
    } else if contains(name, "Maya"@) {
        Some("Maya"@)
    } else if contains(name, "Jungle"@) {
        Some("Jungle"@)
    } else if contains(name, "Plateau"@) {
        Some("Plateau"@)
    } else if contains(name, "Morning"@) {
        Some("Morning"@)
    } else if contains(name, "Forest"@) {
        Some("Morning"@)
    } else if contains(name, "Night"@) {
        Some("Night"@)
    } else if contains(name, "Halloween"@) {
        Some("Halloween"@)
    } else if contains(name, "Cave"@) {
        Some("Cave"@)
    } else {
        None
    }
}

/// The theme of the first background pattern that `name` contains.
fn legacy_pattern_theme_of(name: &[char]) -> (r: Option<&'static str>)
    ensures
        opt_view(r) == legacy_pattern_theme(name@),
{
    if contains_lit(name, "MM_Cave_02_SET_DARK") {
        return Some("MayaCave2Dark");
    }
    if contains_lit(name, "MM_Cave_01_SET_DARK") {
        return Some("MayaCaveDark");
    }
    if contains_lit(name, "MM_Cave") {
        return Some("MayaCave");
    }
    if contains_lit(name, "MM_Temple") {
        return Some("MayaTemple");
    }
    if contains_lit(name, "MM_High") {
        return Some("MayaHigh");
    }
    if contains_lit(name, "MM_01_SET") {
        return Some("Maya");
    }
    if contains_lit(name, "MayaCave2Dark") {
        return Some("MayaCave2Dark");
    }
    if contains_lit(name, "MayaCaveDark") {
        return Some("MayaCaveDark");
    }
    if contains_lit(name, "MayaCave") {
        return Some("MayaCave");
    }
    if contains_lit(name, "MayaTemple") {
        return Some("MayaTemple");
    }
    if contains_lit(name, "MayaHigh") {
        return Some("MayaHigh");
    }
    if contains_lit(name, "Maya") {
        return Some("Maya");
    }
    if contains_lit(name, "Jungle") {
        return Some("Jungle");
    }
    if contains_lit(name, "Plateau") {
        return Some("Plateau");
    }
    if contains_lit(name, "Morning") {
        return Some("Morning");
    }
    if contains_lit(name, "Forest") {
        return Some("Morning");
    }
    if contains_lit(name, "Night") {
        return Some("Night");
    }
    if contains_lit(name, "Halloween") {
        return Some("Halloween");
    }
    if contains_lit(name, "Cave") {
        return Some("Cave");
    }
    None
}


/// The background theme of each Episode 6 level (by its key suffix: level
/// number or star roman numeral), as the game's loader references give it.
pub proof fn lemma_episode6_level_themes()
    ensures
        ep6_theme_for_suffix("1"@) == Some("Maya"@),
        ep6_theme_for_suffix("2"@) == Some("Maya"@),
        ep6_theme_for_suffix("3"@) == Some("Maya"@),
        ep6_theme_for_suffix("4"@) == Some("Maya"@),
        ep6_theme_for_suffix("33"@) == Some("Maya"@),
        ep6_theme_for_suffix("34"@) == Some("Maya"@),
        ep6_theme_for_suffix("35"@) == Some("Maya"@),
        ep6_theme_for_suffix("36"@) == Some("Maya"@),
        ep6_theme_for_suffix("i"@) == Some("Maya"@),
        ep6_theme_for_suffix("ix"@) == Some("Maya"@),
        ep6_theme_for_suffix("5"@) == Some("MayaCave2Dark"@),
        ep6_theme_for_suffix("6"@) == Some("MayaCave2Dark"@),
        ep6_theme_for_suffix("7"@) == Some("MayaCave2Dark"@),
        ep6_theme_for_suffix("8"@) == Some("MayaCave2Dark"@),
        ep6_theme_for_suffix("17"@) == Some("MayaCave2Dark"@),
        ep6_theme_for_suffix("18"@) == Some("MayaCave2Dark"@),
        ep6_theme_for_suffix("19"@) == Some("MayaCave2Dark"@),
        ep6_theme_for_suffix("20"@) == Some("MayaCave2Dark"@),
        ep6_theme_for_suffix("29"@) == Some("MayaCave2Dark"@),
        ep6_theme_for_suffix("30"@) == Some("MayaCave2Dark"@),
        ep6_theme_for_suffix("31"@) == Some("MayaCave2Dark"@),
        ep6_theme_for_suffix("32"@) == Some("MayaCave2Dark"@),
        ep6_theme_for_suffix("ii"@) == Some("MayaCave2Dark"@),
        ep6_theme_for_suffix("v"@) == Some("MayaCave2Dark"@),
        ep6_theme_for_suffix("viii"@) == Some("MayaCave2Dark"@),
        ep6_theme_for_suffix("9"@) == Some("MayaHigh"@),
        ep6_theme_for_suffix("10"@) == Some("MayaHigh"@),
        ep6_theme_for_suffix("11"@) == Some("MayaHigh"@),
        ep6_theme_for_suffix("12"@) == Some("MayaHigh"@),
        ep6_theme_for_suffix("25"@) == Some("MayaHigh"@),
        ep6_theme_for_suffix("26"@) == Some("MayaHigh"@),
        ep6_theme_for_suffix("27"@) == Some("MayaHigh"@),
        ep6_theme_for_suffix("28"@) == Some("MayaHigh"@),
        ep6_theme_for_suffix("iii"@) == Some("MayaHigh"@),
        ep6_theme_for_suffix("vii"@) == Some("MayaHigh"@),
        ep6_theme_for_suffix("13"@) == Some("MayaTemple"@),
        ep6_theme_for_suffix("14"@) == Some("MayaTemple"@),
        ep6_theme_for_suffix("15"@) == Some("MayaTemple"@),
        ep6_theme_for_suffix("16"@) == Some("MayaTemple"@),
        ep6_theme_for_suffix("21"@) == Some("MayaTemple"@),
        ep6_theme_for_suffix("22"@) == Some("MayaTemple"@),
        ep6_theme_for_suffix("23"@) == Some("MayaTemple"@),
        ep6_theme_for_suffix("24"@) == Some("MayaTemple"@),
        ep6_theme_for_suffix("iv"@) == Some("MayaTemple"@),
        ep6_theme_for_suffix("vi"@) == Some("MayaTemple"@),
{
    reveal_strlit("1");
    reveal_strlit("10");
    reveal_strlit("11");
    reveal_strlit("12");
    reveal_strlit("13");
    reveal_strlit("14");
    reveal_strlit("15");
    reveal_strlit("16");
    reveal_strlit("17");
    reveal_strlit("18");
    reveal_strlit("19");
    reveal_strlit("2");
    reveal_strlit("20");
    reveal_strlit("21");
    reveal_strlit("22");
    reveal_strlit("23");
    reveal_strlit("24");
    reveal_strlit("25");
    reveal_strlit("26");
    reveal_strlit("27");
    reveal_strlit("28");
    reveal_strlit("29");
    reveal_strlit("3");
    reveal_strlit("30");
    reveal_strlit("31");
    reveal_strlit("32");
    reveal_strlit("33");
    reveal_strlit("34");
    reveal_strlit("35");
    reveal_strlit("36");
    reveal_strlit("4");
    reveal_strlit("5");
    reveal_strlit("6");
    reveal_strlit("7");
    reveal_strlit("8");
    reveal_strlit("9");
    reveal_strlit("i");
    reveal_strlit("ii");
    reveal_strlit("iii");
    reveal_strlit("iv");
    reveal_strlit("ix");
    reveal_strlit("v");
    reveal_strlit("vi");
    reveal_strlit("vii");
    reveal_strlit("viii");
    assert(ep6_theme_for_suffix("1"@) == Some("Maya"@)) by {
    }
    assert(ep6_theme_for_suffix("2"@) == Some("Maya"@)) by {
        assert("1"@[0] != "2"@[0]);
    }
    assert(ep6_theme_for_suffix("3"@) == Some("Maya"@)) by {
        assert("1"@[0] != "3"@[0]);
        assert("2"@[0] != "3"@[0]);
    }
    assert(ep6_theme_for_suffix("4"@) == Some("Maya"@)) by {
        assert("1"@[0] != "4"@[0]);
        assert("2"@[0] != "4"@[0]);
        assert("3"@[0] != "4"@[0]);
    }
    assert(ep6_theme_for_suffix("33"@) == Some("Maya"@)) by {
        assert("1"@.len() != "33"@.len());
        assert("2"@.len() != "33"@.len());
        assert("3"@.len() != "33"@.len());
        assert("4"@.len() != "33"@.len());
    }
    assert(ep6_theme_for_suffix("34"@) == Some("Maya"@)) by {
        assert("1"@.len() != "34"@.len());
        assert("2"@.len() != "34"@.len());
        assert("3"@.len() != "34"@.len());
        assert("4"@.len() != "34"@.len());
        assert("33"@[1] != "34"@[1]);
    }
    assert(ep6_theme_for_suffix("35"@) == Some("Maya"@)) by {
        assert("1"@.len() != "35"@.len());
        assert("2"@.len() != "35"@.len());
        assert("3"@.len() != "35"@.len());
        assert("4"@.len() != "35"@.len());
        assert("33"@[1] != "35"@[1]);
        assert("34"@[1] != "35"@[1]);
    }
    assert(ep6_theme_for_suffix("36"@) == Some("Maya"@)) by {
        assert("1"@.len() != "36"@.len());
        assert("2"@.len() != "36"@.len());
        assert("3"@.len() != "36"@.len());
        assert("4"@.len() != "36"@.len());
        assert("33"@[1] != "36"@[1]);
        assert("34"@[1] != "36"@[1]);
        assert("35"@[1] != "36"@[1]);
    }
    assert(ep6_theme_for_suffix("i"@) == Some("Maya"@)) by {
        assert("1"@[0] != "i"@[0]);
        assert("2"@[0] != "i"@[0]);
        assert("3"@[0] != "i"@[0]);
        assert("4"@[0] != "i"@[0]);
        assert("33"@.len() != "i"@.len());
        assert("34"@.len() != "i"@.len());
        assert("35"@.len() != "i"@.len());
        assert("36"@.len() != "i"@.len());
    }
    assert(ep6_theme_for_suffix("ix"@) == Some("Maya"@)) by {
        assert("1"@.len() != "ix"@.len());
        assert("2"@.len() != "ix"@.len());
        assert("3"@.len() != "ix"@.len());
        assert("4"@.len() != "ix"@.len());
        assert("33"@[0] != "ix"@[0]);
        assert("34"@[0] != "ix"@[0]);
        assert("35"@[0] != "ix"@[0]);
        assert("36"@[0] != "ix"@[0]);
        assert("i"@.len() != "ix"@.len());
    }
    assert(ep6_theme_for_suffix("5"@) == Some("MayaCave2Dark"@)) by {
        assert("1"@[0] != "5"@[0]);
        assert("2"@[0] != "5"@[0]);
        assert("3"@[0] != "5"@[0]);
        assert("4"@[0] != "5"@[0]);
        assert("33"@.len() != "5"@.len());
        assert("34"@.len() != "5"@.len());
        assert("35"@.len() != "5"@.len());
        assert("36"@.len() != "5"@.len());
        assert("i"@[0] != "5"@[0]);
        assert("ix"@.len() != "5"@.len());
    }
    assert(ep6_theme_for_suffix("6"@) == Some("MayaCave2Dark"@)) by {
        assert("1"@[0] != "6"@[0]);
        assert("2"@[0] != "6"@[0]);
        assert("3"@[0] != "6"@[0]);
        assert("4"@[0] != "6"@[0]);
        assert("33"@.len() != "6"@.len());
        assert("34"@.len() != "6"@.len());
        assert("35"@.len() != "6"@.len());
        assert("36"@.len() != "6"@.len());
        assert("i"@[0] != "6"@[0]);
        assert("ix"@.len() != "6"@.len());
        assert("5"@[0] != "6"@[0]);
    }
    assert(ep6_theme_for_suffix("7"@) == Some("MayaCave2Dark"@)) by {
        assert("1"@[0] != "7"@[0]);
        assert("2"@[0] != "7"@[0]);
        assert("3"@[0] != "7"@[0]);
        assert("4"@[0] != "7"@[0]);
        assert("33"@.len() != "7"@.len());
        assert("34"@.len() != "7"@.len());
        assert("35"@.len() != "7"@.len());
        assert("36"@.len() != "7"@.len());
        assert("i"@[0] != "7"@[0]);
        assert("ix"@.len() != "7"@.len());
        assert("5"@[0] != "7"@[0]);
        assert("6"@[0] != "7"@[0]);
    }
    assert(ep6_theme_for_suffix("8"@) == Some("MayaCave2Dark"@)) by {
        assert("1"@[0] != "8"@[0]);
        assert("2"@[0] != "8"@[0]);
        assert("3"@[0] != "8"@[0]);
        assert("4"@[0] != "8"@[0]);
        assert("33"@.len() != "8"@.len());
        assert("34"@.len() != "8"@.len());
        assert("35"@.len() != "8"@.len());
        assert("36"@.len() != "8"@.len());
        assert("i"@[0] != "8"@[0]);
        assert("ix"@.len() != "8"@.len());
        assert("5"@[0] != "8"@[0]);
        assert("6"@[0] != "8"@[0]);
        assert("7"@[0] != "8"@[0]);
    }
    assert(ep6_theme_for_suffix("17"@) == Some("MayaCave2Dark"@)) by {
        assert("1"@.len() != "17"@.len());
        assert("2"@.len() != "17"@.len());
        assert("3"@.len() != "17"@.len());
        assert("4"@.len() != "17"@.len());
        assert("33"@[0] != "17"@[0]);
        assert("34"@[0] != "17"@[0]);
        assert("35"@[0] != "17"@[0]);
        assert("36"@[0] != "17"@[0]);
        assert("i"@.len() != "17"@.len());
        assert("ix"@[0] != "17"@[0]);
        assert("5"@.len() != "17"@.len());
        assert("6"@.len() != "17"@.len());
        assert("7"@.len() != "17"@.len());
        assert("8"@.len() != "17"@.len());
    }
    assert(ep6_theme_for_suffix("18"@) == Some("MayaCave2Dark"@)) by {
        assert("1"@.len() != "18"@.len());
        assert("2"@.len() != "18"@.len());
        assert("3"@.len() != "18"@.len());
        assert("4"@.len() != "18"@.len());
        assert("33"@[0] != "18"@[0]);
        assert("34"@[0] != "18"@[0]);
        assert("35"@[0] != "18"@[0]);
        assert("36"@[0] != "18"@[0]);
        assert("i"@.len() != "18"@.len());
        assert("ix"@[0] != "18"@[0]);
        assert("5"@.len() != "18"@.len());
        assert("6"@.len() != "18"@.len());
        assert("7"@.len() != "18"@.len());
        assert("8"@.len() != "18"@.len());
        assert("17"@[1] != "18"@[1]);
    }
    assert(ep6_theme_for_suffix("19"@) == Some("MayaCave2Dark"@)) by {
        assert("1"@.len() != "19"@.len());
        assert("2"@.len() != "19"@.len());
        assert("3"@.len() != "19"@.len());
        assert("4"@.len() != "19"@.len());
        assert("33"@[0] != "19"@[0]);
        assert("34"@[0] != "19"@[0]);
        assert("35"@[0] != "19"@[0]);
        assert("36"@[0] != "19"@[0]);
        assert("i"@.len() != "19"@.len());
        assert("ix"@[0] != "19"@[0]);
        assert("5"@.len() != "19"@.len());
        assert("6"@.len() != "19"@.len());
        assert("7"@.len() != "19"@.len());
        assert("8"@.len() != "19"@.len());
        assert("17"@[1] != "19"@[1]);
        assert("18"@[1] != "19"@[1]);
    }
    assert(ep6_theme_for_suffix("20"@) == Some("MayaCave2Dark"@)) by {
        assert("1"@.len() != "20"@.len());
        assert("2"@.len() != "20"@.len());
        assert("3"@.len() != "20"@.len());
        assert("4"@.len() != "20"@.len());
        assert("33"@[0] != "20"@[0]);
        assert("34"@[0] != "20"@[0]);
        assert("35"@[0] != "20"@[0]);
        assert("36"@[0] != "20"@[0]);
        assert("i"@.len() != "20"@.len());
        assert("ix"@[0] != "20"@[0]);
        assert("5"@.len() != "20"@.len());
        assert("6"@.len() != "20"@.len());
        assert("7"@.len() != "20"@.len());
        assert("8"@.len() != "20"@.len());
        assert("17"@[0] != "20"@[0]);
        assert("18"@[0] != "20"@[0]);
        assert("19"@[0] != "20"@[0]);
    }
    assert(ep6_theme_for_suffix("29"@) == Some("MayaCave2Dark"@)) by {
        assert("1"@.len() != "29"@.len());
        assert("2"@.len() != "29"@.len());
        assert("3"@.len() != "29"@.len());
        assert("4"@.len() != "29"@.len());
        assert("33"@[0] != "29"@[0]);
        assert("34"@[0] != "29"@[0]);
        assert("35"@[0] != "29"@[0]);
        assert("36"@[0] != "29"@[0]);
        assert("i"@.len() != "29"@.len());
        assert("ix"@[0] != "29"@[0]);
        assert("5"@.len() != "29"@.len());
        assert("6"@.len() != "29"@.len());
        assert("7"@.len() != "29"@.len());
        assert("8"@.len() != "29"@.len());
        assert("17"@[0] != "29"@[0]);
        assert("18"@[0] != "29"@[0]);
        assert("19"@[0] != "29"@[0]);
        assert("20"@[1] != "29"@[1]);
    }
    assert(ep6_theme_for_suffix("30"@) == Some("MayaCave2Dark"@)) by {
        assert("1"@.len() != "30"@.len());
        assert("2"@.len() != "30"@.len());
        assert("3"@.len() != "30"@.len());
        assert("4"@.len() != "30"@.len());
        assert("33"@[1] != "30"@[1]);
        assert("34"@[1] != "30"@[1]);
        assert("35"@[1] != "30"@[1]);
        assert("36"@[1] != "30"@[1]);
        assert("i"@.len() != "30"@.len());
        assert("ix"@[0] != "30"@[0]);
        assert("5"@.len() != "30"@.len());
        assert("6"@.len() != "30"@.len());
        assert("7"@.len() != "30"@.len());
        assert("8"@.len() != "30"@.len());
        assert("17"@[0] != "30"@[0]);
        assert("18"@[0] != "30"@[0]);
        assert("19"@[0] != "30"@[0]);
        assert("20"@[0] != "30"@[0]);
        assert("29"@[0] != "30"@[0]);
    }
    assert(ep6_theme_for_suffix("31"@) == Some("MayaCave2Dark"@)) by {
        assert("1"@.len() != "31"@.len());
        assert("2"@.len() != "31"@.len());
        assert("3"@.len() != "31"@.len());
        assert("4"@.len() != "31"@.len());
        assert("33"@[1] != "31"@[1]);
        assert("34"@[1] != "31"@[1]);
        assert("35"@[1] != "31"@[1]);
        assert("36"@[1] != "31"@[1]);
        assert("i"@.len() != "31"@.len());
        assert("ix"@[0] != "31"@[0]);
        assert("5"@.len() != "31"@.len());
        assert("6"@.len() != "31"@.len());
        assert("7"@.len() != "31"@.len());
        assert("8"@.len() != "31"@.len());
        assert("17"@[0] != "31"@[0]);
        assert("18"@[0] != "31"@[0]);
        assert("19"@[0] != "31"@[0]);
        assert("20"@[0] != "31"@[0]);
        assert("29"@[0] != "31"@[0]);
        assert("30"@[1] != "31"@[1]);
    }
    assert(ep6_theme_for_suffix("32"@) == Some("MayaCave2Dark"@)) by {
        assert("1"@.len() != "32"@.len());
        assert("2"@.len() != "32"@.len());
        assert("3"@.len() != "32"@.len());
        assert("4"@.len() != "32"@.len());
        assert("33"@[1] != "32"@[1]);
        assert("34"@[1] != "32"@[1]);
        assert("35"@[1] != "32"@[1]);
        assert("36"@[1] != "32"@[1]);
        assert("i"@.len() != "32"@.len());
        assert("ix"@[0] != "32"@[0]);
        assert("5"@.len() != "32"@.len());
        assert("6"@.len() != "32"@.len());
        assert("7"@.len() != "32"@.len());
        assert("8"@.len() != "32"@.len());
        assert("17"@[0] != "32"@[0]);
        assert("18"@[0] != "32"@[0]);
        assert("19"@[0] != "32"@[0]);
        assert("20"@[0] != "32"@[0]);
        assert("29"@[0] != "32"@[0]);
        assert("30"@[1] != "32"@[1]);
        assert("31"@[1] != "32"@[1]);
    }
    assert(ep6_theme_for_suffix("ii"@) == Some("MayaCave2Dark"@)) by {
        assert("1"@.len() != "ii"@.len());
        assert("2"@.len() != "ii"@.len());
        assert("3"@.len() != "ii"@.len());
        assert("4"@.len() != "ii"@.len());
        assert("33"@[0] != "ii"@[0]);
        assert("34"@[0] != "ii"@[0]);
        assert("35"@[0] != "ii"@[0]);
        assert("36"@[0] != "ii"@[0]);
        assert("i"@.len() != "ii"@.len());
        assert("ix"@[1] != "ii"@[1]);
        assert("5"@.len() != "ii"@.len());
        assert("6"@.len() != "ii"@.len());
        assert("7"@.len() != "ii"@.len());
        assert("8"@.len() != "ii"@.len());
        assert("17"@[0] != "ii"@[0]);
        assert("18"@[0] != "ii"@[0]);
        assert("19"@[0] != "ii"@[0]);
        assert("20"@[0] != "ii"@[0]);
        assert("29"@[0] != "ii"@[0]);
        assert("30"@[0] != "ii"@[0]);
        assert("31"@[0] != "ii"@[0]);
        assert("32"@[0] != "ii"@[0]);
    }
    assert(ep6_theme_for_suffix("v"@) == Some("MayaCave2Dark"@)) by {
        assert("1"@[0] != "v"@[0]);
        assert("2"@[0] != "v"@[0]);
        assert("3"@[0] != "v"@[0]);
        assert("4"@[0] != "v"@[0]);
        assert("33"@.len() != "v"@.len());
        assert("34"@.len() != "v"@.len());
        assert("35"@.len() != "v"@.len());
        assert("36"@.len() != "v"@.len());
        assert("i"@[0] != "v"@[0]);
        assert("ix"@.len() != "v"@.len());
        assert("5"@[0] != "v"@[0]);
        assert("6"@[0] != "v"@[0]);
        assert("7"@[0] != "v"@[0]);
        assert("8"@[0] != "v"@[0]);
        assert("17"@.len() != "v"@.len());
        assert("18"@.len() != "v"@.len());
        assert("19"@.len() != "v"@.len());
        assert("20"@.len() != "v"@.len());
        assert("29"@.len() != "v"@.len());
        assert("30"@.len() != "v"@.len());
        assert("31"@.len() != "v"@.len());
        assert("32"@.len() != "v"@.len());
        assert("ii"@.len() != "v"@.len());
    }
    assert(ep6_theme_for_suffix("viii"@) == Some("MayaCave2Dark"@)) by {
        assert("1"@.len() != "viii"@.len());
        assert("2"@.len() != "viii"@.len());
        assert("3"@.len() != "viii"@.len());
        assert("4"@.len() != "viii"@.len());
        assert("33"@.len() != "viii"@.len());
        assert("34"@.len() != "viii"@.len());
        assert("35"@.len() != "viii"@.len());
        assert("36"@.len() != "viii"@.len());
        assert("i"@.len() != "viii"@.len());
        assert("ix"@.len() != "viii"@.len());
        assert("5"@.len() != "viii"@.len());
        assert("6"@.len() != "viii"@.len());
        assert("7"@.len() != "viii"@.len());
        assert("8"@.len() != "viii"@.len());
        assert("17"@.len() != "viii"@.len());
        assert("18"@.len() != "viii"@.len());
        assert("19"@.len() != "viii"@.len());
        assert("20"@.len() != "viii"@.len());
        assert("29"@.len() != "viii"@.len());
        assert("30"@.len() != "viii"@.len());
        assert("31"@.len() != "viii"@.len());
        assert("32"@.len() != "viii"@.len());
        assert("ii"@.len() != "viii"@.len());
        assert("v"@.len() != "viii"@.len());
    }
    assert(ep6_theme_for_suffix("9"@) == Some("MayaHigh"@)) by {
        assert("1"@[0] != "9"@[0]);
        assert("2"@[0] != "9"@[0]);
        assert("3"@[0] != "9"@[0]);
        assert("4"@[0] != "9"@[0]);
        assert("33"@.len() != "9"@.len());
        assert("34"@.len() != "9"@.len());
        assert("35"@.len() != "9"@.len());
        assert("36"@.len() != "9"@.len());
        assert("i"@[0] != "9"@[0]);
        assert("ix"@.len() != "9"@.len());
        assert("5"@[0] != "9"@[0]);
        assert("6"@[0] != "9"@[0]);
        assert("7"@[0] != "9"@[0]);
        assert("8"@[0] != "9"@[0]);
        assert("17"@.len() != "9"@.len());
        assert("18"@.len() != "9"@.len());
        assert("19"@.len() != "9"@.len());
        assert("20"@.len() != "9"@.len());
        assert("29"@.len() != "9"@.len());
        assert("30"@.len() != "9"@.len());
        assert("31"@.len() != "9"@.len());
        assert("32"@.len() != "9"@.len());
        assert("ii"@.len() != "9"@.len());
        assert("v"@[0] != "9"@[0]);
        assert("viii"@.len() != "9"@.len());
    }
    assert(ep6_theme_for_suffix("10"@) == Some("MayaHigh"@)) by {
        assert("1"@.len() != "10"@.len());
        assert("2"@.len() != "10"@.len());
        assert("3"@.len() != "10"@.len());
        assert("4"@.len() != "10"@.len());
        assert("33"@[0] != "10"@[0]);
        assert("34"@[0] != "10"@[0]);
        assert("35"@[0] != "10"@[0]);
        assert("36"@[0] != "10"@[0]);
        assert("i"@.len() != "10"@.len());
        assert("ix"@[0] != "10"@[0]);
        assert("5"@.len() != "10"@.len());
        assert("6"@.len() != "10"@.len());
        assert("7"@.len() != "10"@.len());
        assert("8"@.len() != "10"@.len());
        assert("17"@[1] != "10"@[1]);
        assert("18"@[1] != "10"@[1]);
        assert("19"@[1] != "10"@[1]);
        assert("20"@[0] != "10"@[0]);
        assert("29"@[0] != "10"@[0]);
        assert("30"@[0] != "10"@[0]);
        assert("31"@[0] != "10"@[0]);
        assert("32"@[0] != "10"@[0]);
        assert("ii"@[0] != "10"@[0]);
        assert("v"@.len() != "10"@.len());
        assert("viii"@.len() != "10"@.len());
        assert("9"@.len() != "10"@.len());
    }
    assert(ep6_theme_for_suffix("11"@) == Some("MayaHigh"@)) by {
        assert("1"@.len() != "11"@.len());
        assert("2"@.len() != "11"@.len());
        assert("3"@.len() != "11"@.len());
        assert("4"@.len() != "11"@.len());
        assert("33"@[0] != "11"@[0]);
        assert("34"@[0] != "11"@[0]);
        assert("35"@[0] != "11"@[0]);
        assert("36"@[0] != "11"@[0]);
        assert("i"@.len() != "11"@.len());
        assert("ix"@[0] != "11"@[0]);
        assert("5"@.len() != "11"@.len());
        assert("6"@.len() != "11"@.len());
        assert("7"@.len() != "11"@.len());
        assert("8"@.len() != "11"@.len());
        assert("17"@[1] != "11"@[1]);
        assert("18"@[1] != "11"@[1]);
        assert("19"@[1] != "11"@[1]);
        assert("20"@[0] != "11"@[0]);
        assert("29"@[0] != "11"@[0]);
        assert("30"@[0] != "11"@[0]);
        assert("31"@[0] != "11"@[0]);
        assert("32"@[0] != "11"@[0]);
        assert("ii"@[0] != "11"@[0]);
        assert("v"@.len() != "11"@.len());
        assert("viii"@.len() != "11"@.len());
        assert("9"@.len() != "11"@.len());
        assert("10"@[1] != "11"@[1]);
    }
    assert(ep6_theme_for_suffix("12"@) == Some("MayaHigh"@)) by {
        assert("1"@.len() != "12"@.len());
        assert("2"@.len() != "12"@.len());
        assert("3"@.len() != "12"@.len());
        assert("4"@.len() != "12"@.len());
        assert("33"@[0] != "12"@[0]);
        assert("34"@[0] != "12"@[0]);
        assert("35"@[0] != "12"@[0]);
        assert("36"@[0] != "12"@[0]);
        assert("i"@.len() != "12"@.len());
        assert("ix"@[0] != "12"@[0]);
        assert("5"@.len() != "12"@.len());
        assert("6"@.len() != "12"@.len());
        assert("7"@.len() != "12"@.len());
        assert("8"@.len() != "12"@.len());
        assert("17"@[1] != "12"@[1]);
        assert("18"@[1] != "12"@[1]);
        assert("19"@[1] != "12"@[1]);
        assert("20"@[0] != "12"@[0]);
        assert("29"@[0] != "12"@[0]);
        assert("30"@[0] != "12"@[0]);
        assert("31"@[0] != "12"@[0]);
        assert("32"@[0] != "12"@[0]);
        assert("ii"@[0] != "12"@[0]);
        assert("v"@.len() != "12"@.len());
        assert("viii"@.len() != "12"@.len());
        assert("9"@.len() != "12"@.len());
        assert("10"@[1] != "12"@[1]);
        assert("11"@[1] != "12"@[1]);
    }
    assert(ep6_theme_for_suffix("25"@) == Some("MayaHigh"@)) by {
        assert("1"@.len() != "25"@.len());
        assert("2"@.len() != "25"@.len());
        assert("3"@.len() != "25"@.len());
        assert("4"@.len() != "25"@.len());
        assert("33"@[0] != "25"@[0]);
        assert("34"@[0] != "25"@[0]);
        assert("35"@[0] != "25"@[0]);
        assert("36"@[0] != "25"@[0]);
        assert("i"@.len() != "25"@.len());
        assert("ix"@[0] != "25"@[0]);
        assert("5"@.len() != "25"@.len());
        assert("6"@.len() != "25"@.len());
        assert("7"@.len() != "25"@.len());
        assert("8"@.len() != "25"@.len());
        assert("17"@[0] != "25"@[0]);
        assert("18"@[0] != "25"@[0]);
        assert("19"@[0] != "25"@[0]);
        assert("20"@[1] != "25"@[1]);
        assert("29"@[1] != "25"@[1]);
        assert("30"@[0] != "25"@[0]);
        assert("31"@[0] != "25"@[0]);
        assert("32"@[0] != "25"@[0]);
        assert("ii"@[0] != "25"@[0]);
        assert("v"@.len() != "25"@.len());
        assert("viii"@.len() != "25"@.len());
        assert("9"@.len() != "25"@.len());
        assert("10"@[0] != "25"@[0]);
        assert("11"@[0] != "25"@[0]);
        assert("12"@[0] != "25"@[0]);
    }
    assert(ep6_theme_for_suffix("26"@) == Some("MayaHigh"@)) by {
        assert("1"@.len() != "26"@.len());
        assert("2"@.len() != "26"@.len());
        assert("3"@.len() != "26"@.len());
        assert("4"@.len() != "26"@.len());
        assert("33"@[0] != "26"@[0]);
        assert("34"@[0] != "26"@[0]);
        assert("35"@[0] != "26"@[0]);
        assert("36"@[0] != "26"@[0]);
        assert("i"@.len() != "26"@.len());
        assert("ix"@[0] != "26"@[0]);
        assert("5"@.len() != "26"@.len());
        assert("6"@.len() != "26"@.len());
        assert("7"@.len() != "26"@.len());
        assert("8"@.len() != "26"@.len());
        assert("17"@[0] != "26"@[0]);
        assert("18"@[0] != "26"@[0]);
        assert("19"@[0] != "26"@[0]);
        assert("20"@[1] != "26"@[1]);
        assert("29"@[1] != "26"@[1]);
        assert("30"@[0] != "26"@[0]);
        assert("31"@[0] != "26"@[0]);
        assert("32"@[0] != "26"@[0]);
        assert("ii"@[0] != "26"@[0]);
        assert("v"@.len() != "26"@.len());
        assert("viii"@.len() != "26"@.len());
        assert("9"@.len() != "26"@.len());
        assert("10"@[0] != "26"@[0]);
        assert("11"@[0] != "26"@[0]);
        assert("12"@[0] != "26"@[0]);
        assert("25"@[1] != "26"@[1]);
    }
    assert(ep6_theme_for_suffix("27"@) == Some("MayaHigh"@)) by {
        assert("1"@.len() != "27"@.len());
        assert("2"@.len() != "27"@.len());
        assert("3"@.len() != "27"@.len());
        assert("4"@.len() != "27"@.len());
        assert("33"@[0] != "27"@[0]);
        assert("34"@[0] != "27"@[0]);
        assert("35"@[0] != "27"@[0]);
        assert("36"@[0] != "27"@[0]);
        assert("i"@.len() != "27"@.len());
        assert("ix"@[0] != "27"@[0]);
        assert("5"@.len() != "27"@.len());
        assert("6"@.len() != "27"@.len());
        assert("7"@.len() != "27"@.len());
        assert("8"@.len() != "27"@.len());
        assert("17"@[0] != "27"@[0]);
        assert("18"@[0] != "27"@[0]);
        assert("19"@[0] != "27"@[0]);
        assert("20"@[1] != "27"@[1]);
        assert("29"@[1] != "27"@[1]);
        assert("30"@[0] != "27"@[0]);
        assert("31"@[0] != "27"@[0]);
        assert("32"@[0] != "27"@[0]);
        assert("ii"@[0] != "27"@[0]);
        assert("v"@.len() != "27"@.len());
        assert("viii"@.len() != "27"@.len());
        assert("9"@.len() != "27"@.len());
        assert("10"@[0] != "27"@[0]);
        assert("11"@[0] != "27"@[0]);
        assert("12"@[0] != "27"@[0]);
        assert("25"@[1] != "27"@[1]);
        assert("26"@[1] != "27"@[1]);
    }
    assert(ep6_theme_for_suffix("28"@) == Some("MayaHigh"@)) by {
        assert("1"@.len() != "28"@.len());
        assert("2"@.len() != "28"@.len());
        assert("3"@.len() != "28"@.len());
        assert("4"@.len() != "28"@.len());
        assert("33"@[0] != "28"@[0]);
        assert("34"@[0] != "28"@[0]);
        assert("35"@[0] != "28"@[0]);
        assert("36"@[0] != "28"@[0]);
        assert("i"@.len() != "28"@.len());
        assert("ix"@[0] != "28"@[0]);
        assert("5"@.len() != "28"@.len());
        assert("6"@.len() != "28"@.len());
        assert("7"@.len() != "28"@.len());
        assert("8"@.len() != "28"@.len());
        assert("17"@[0] != "28"@[0]);
        assert("18"@[0] != "28"@[0]);
        assert("19"@[0] != "28"@[0]);
        assert("20"@[1] != "28"@[1]);
        assert("29"@[1] != "28"@[1]);
        assert("30"@[0] != "28"@[0]);
        assert("31"@[0] != "28"@[0]);
        assert("32"@[0] != "28"@[0]);
        assert("ii"@[0] != "28"@[0]);
        assert("v"@.len() != "28"@.len());
        assert("viii"@.len() != "28"@.len());
        assert("9"@.len() != "28"@.len());
        assert("10"@[0] != "28"@[0]);
        assert("11"@[0] != "28"@[0]);
        assert("12"@[0] != "28"@[0]);
        assert("25"@[1] != "28"@[1]);
        assert("26"@[1] != "28"@[1]);
        assert("27"@[1] != "28"@[1]);
    }
    assert(ep6_theme_for_suffix("iii"@) == Some("MayaHigh"@)) by {
        assert("1"@.len() != "iii"@.len());
        assert("2"@.len() != "iii"@.len());
        assert("3"@.len() != "iii"@.len());
        assert("4"@.len() != "iii"@.len());
        assert("33"@.len() != "iii"@.len());
        assert("34"@.len() != "iii"@.len());
        assert("35"@.len() != "iii"@.len());
        assert("36"@.len() != "iii"@.len());
        assert("i"@.len() != "iii"@.len());
        assert("ix"@.len() != "iii"@.len());
        assert("5"@.len() != "iii"@.len());
        assert("6"@.len() != "iii"@.len());
        assert("7"@.len() != "iii"@.len());
        assert("8"@.len() != "iii"@.len());
        assert("17"@.len() != "iii"@.len());
        assert("18"@.len() != "iii"@.len());
        assert("19"@.len() != "iii"@.len());
        assert("20"@.len() != "iii"@.len());
        assert("29"@.len() != "iii"@.len());
        assert("30"@.len() != "iii"@.len());
        assert("31"@.len() != "iii"@.len());
        assert("32"@.len() != "iii"@.len());
        assert("ii"@.len() != "iii"@.len());
        assert("v"@.len() != "iii"@.len());
        assert("viii"@.len() != "iii"@.len());
        assert("9"@.len() != "iii"@.len());
        assert("10"@.len() != "iii"@.len());
        assert("11"@.len() != "iii"@.len());
        assert("12"@.len() != "iii"@.len());
        assert("25"@.len() != "iii"@.len());
        assert("26"@.len() != "iii"@.len());
        assert("27"@.len() != "iii"@.len());
        assert("28"@.len() != "iii"@.len());
    }
    assert(ep6_theme_for_suffix("vii"@) == Some("MayaHigh"@)) by {
        assert("1"@.len() != "vii"@.len());
        assert("2"@.len() != "vii"@.len());
        assert("3"@.len() != "vii"@.len());
        assert("4"@.len() != "vii"@.len());
        assert("33"@.len() != "vii"@.len());
        assert("34"@.len() != "vii"@.len());
        assert("35"@.len() != "vii"@.len());
        assert("36"@.len() != "vii"@.len());
        assert("i"@.len() != "vii"@.len());
        assert("ix"@.len() != "vii"@.len());
        assert("5"@.len() != "vii"@.len());
        assert("6"@.len() != "vii"@.len());
        assert("7"@.len() != "vii"@.len());
        assert("8"@.len() != "vii"@.len());
        assert("17"@.len() != "vii"@.len());
        assert("18"@.len() != "vii"@.len());
        assert("19"@.len() != "vii"@.len());
        assert("20"@.len() != "vii"@.len());
        assert("29"@.len() != "vii"@.len());
        assert("30"@.len() != "vii"@.len());
        assert("31"@.len() != "vii"@.len());
        assert("32"@.len() != "vii"@.len());
        assert("ii"@.len() != "vii"@.len());
        assert("v"@.len() != "vii"@.len());
        assert("viii"@.len() != "vii"@.len());
        assert("9"@.len() != "vii"@.len());
        assert("10"@.len() != "vii"@.len());
        assert("11"@.len() != "vii"@.len());
        assert("12"@.len() != "vii"@.len());
        assert("25"@.len() != "vii"@.len());
        assert("26"@.len() != "vii"@.len());
        assert("27"@.len() != "vii"@.len());
        assert("28"@.len() != "vii"@.len());
        assert("iii"@[0] != "vii"@[0]);
    }
    assert(ep6_theme_for_suffix("13"@) == Some("MayaTemple"@)) by {
        assert("1"@.len() != "13"@.len());
        assert("2"@.len() != "13"@.len());
        assert("3"@.len() != "13"@.len());
        assert("4"@.len() != "13"@.len());
        assert("33"@[0] != "13"@[0]);
        assert("34"@[0] != "13"@[0]);
        assert("35"@[0] != "13"@[0]);
        assert("36"@[0] != "13"@[0]);
        assert("i"@.len() != "13"@.len());
        assert("ix"@[0] != "13"@[0]);
        assert("5"@.len() != "13"@.len());
        assert("6"@.len() != "13"@.len());
        assert("7"@.len() != "13"@.len());
        assert("8"@.len() != "13"@.len());
        assert("17"@[1] != "13"@[1]);
        assert("18"@[1] != "13"@[1]);
        assert("19"@[1] != "13"@[1]);
        assert("20"@[0] != "13"@[0]);
        assert("29"@[0] != "13"@[0]);
        assert("30"@[0] != "13"@[0]);
        assert("31"@[0] != "13"@[0]);
        assert("32"@[0] != "13"@[0]);
        assert("ii"@[0] != "13"@[0]);
        assert("v"@.len() != "13"@.len());
        assert("viii"@.len() != "13"@.len());
        assert("9"@.len() != "13"@.len());
        assert("10"@[1] != "13"@[1]);
        assert("11"@[1] != "13"@[1]);
        assert("12"@[1] != "13"@[1]);
        assert("25"@[0] != "13"@[0]);
        assert("26"@[0] != "13"@[0]);
        assert("27"@[0] != "13"@[0]);
        assert("28"@[0] != "13"@[0]);
        assert("iii"@.len() != "13"@.len());
        assert("vii"@.len() != "13"@.len());
    }
    assert(ep6_theme_for_suffix("14"@) == Some("MayaTemple"@)) by {
        assert("1"@.len() != "14"@.len());
        assert("2"@.len() != "14"@.len());
        assert("3"@.len() != "14"@.len());
        assert("4"@.len() != "14"@.len());
        assert("33"@[0] != "14"@[0]);
        assert("34"@[0] != "14"@[0]);
        assert("35"@[0] != "14"@[0]);
        assert("36"@[0] != "14"@[0]);
        assert("i"@.len() != "14"@.len());
        assert("ix"@[0] != "14"@[0]);
        assert("5"@.len() != "14"@.len());
        assert("6"@.len() != "14"@.len());
        assert("7"@.len() != "14"@.len());
        assert("8"@.len() != "14"@.len());
        assert("17"@[1] != "14"@[1]);
        assert("18"@[1] != "14"@[1]);
        assert("19"@[1] != "14"@[1]);
        assert("20"@[0] != "14"@[0]);
        assert("29"@[0] != "14"@[0]);
        assert("30"@[0] != "14"@[0]);
        assert("31"@[0] != "14"@[0]);
        assert("32"@[0] != "14"@[0]);
        assert("ii"@[0] != "14"@[0]);
        assert("v"@.len() != "14"@.len());
        assert("viii"@.len() != "14"@.len());
        assert("9"@.len() != "14"@.len());
        assert("10"@[1] != "14"@[1]);
        assert("11"@[1] != "14"@[1]);
        assert("12"@[1] != "14"@[1]);
        assert("25"@[0] != "14"@[0]);
        assert("26"@[0] != "14"@[0]);
        assert("27"@[0] != "14"@[0]);
        assert("28"@[0] != "14"@[0]);
        assert("iii"@.len() != "14"@.len());
        assert("vii"@.len() != "14"@.len());
        assert("13"@[1] != "14"@[1]);
    }
    assert(ep6_theme_for_suffix("15"@) == Some("MayaTemple"@)) by {
        assert("1"@.len() != "15"@.len());
        assert("2"@.len() != "15"@.len());
        assert("3"@.len() != "15"@.len());
        assert("4"@.len() != "15"@.len());
        assert("33"@[0] != "15"@[0]);
        assert("34"@[0] != "15"@[0]);
        assert("35"@[0] != "15"@[0]);
        assert("36"@[0] != "15"@[0]);
        assert("i"@.len() != "15"@.len());
        assert("ix"@[0] != "15"@[0]);
        assert("5"@.len() != "15"@.len());
        assert("6"@.len() != "15"@.len());
        assert("7"@.len() != "15"@.len());
        assert("8"@.len() != "15"@.len());
        assert("17"@[1] != "15"@[1]);
        assert("18"@[1] != "15"@[1]);
        assert("19"@[1] != "15"@[1]);
        assert("20"@[0] != "15"@[0]);
        assert("29"@[0] != "15"@[0]);
        assert("30"@[0] != "15"@[0]);
        assert("31"@[0] != "15"@[0]);
        assert("32"@[0] != "15"@[0]);
        assert("ii"@[0] != "15"@[0]);
        assert("v"@.len() != "15"@.len());
        assert("viii"@.len() != "15"@.len());
        assert("9"@.len() != "15"@.len());
        assert("10"@[1] != "15"@[1]);
        assert("11"@[1] != "15"@[1]);
        assert("12"@[1] != "15"@[1]);
        assert("25"@[0] != "15"@[0]);
        assert("26"@[0] != "15"@[0]);
        assert("27"@[0] != "15"@[0]);
        assert("28"@[0] != "15"@[0]);
        assert("iii"@.len() != "15"@.len());
        assert("vii"@.len() != "15"@.len());
        assert("13"@[1] != "15"@[1]);
        assert("14"@[1] != "15"@[1]);
    }
    assert(ep6_theme_for_suffix("16"@) == Some("MayaTemple"@)) by {
        assert("1"@.len() != "16"@.len());
        assert("2"@.len() != "16"@.len());
        assert("3"@.len() != "16"@.len());
        assert("4"@.len() != "16"@.len());
        assert("33"@[0] != "16"@[0]);
        assert("34"@[0] != "16"@[0]);
        assert("35"@[0] != "16"@[0]);
        assert("36"@[0] != "16"@[0]);
        assert("i"@.len() != "16"@.len());
        assert("ix"@[0] != "16"@[0]);
        assert("5"@.len() != "16"@.len());
        assert("6"@.len() != "16"@.len());
        assert("7"@.len() != "16"@.len());
        assert("8"@.len() != "16"@.len());
        assert("17"@[1] != "16"@[1]);
        assert("18"@[1] != "16"@[1]);
        assert("19"@[1] != "16"@[1]);
        assert("20"@[0] != "16"@[0]);
        assert("29"@[0] != "16"@[0]);
        assert("30"@[0] != "16"@[0]);
        assert("31"@[0] != "16"@[0]);
        assert("32"@[0] != "16"@[0]);
        assert("ii"@[0] != "16"@[0]);
        assert("v"@.len() != "16"@.len());
        assert("viii"@.len() != "16"@.len());
        assert("9"@.len() != "16"@.len());
        assert("10"@[1] != "16"@[1]);
        assert("11"@[1] != "16"@[1]);
        assert("12"@[1] != "16"@[1]);
        assert("25"@[0] != "16"@[0]);
        assert("26"@[0] != "16"@[0]);
        assert("27"@[0] != "16"@[0]);
        assert("28"@[0] != "16"@[0]);
        assert("iii"@.len() != "16"@.len());
        assert("vii"@.len() != "16"@.len());
        assert("13"@[1] != "16"@[1]);
        assert("14"@[1] != "16"@[1]);
        assert("15"@[1] != "16"@[1]);
    }
    assert(ep6_theme_for_suffix("21"@) == Some("MayaTemple"@)) by {
        assert("1"@.len() != "21"@.len());
        assert("2"@.len() != "21"@.len());
        assert("3"@.len() != "21"@.len());
        assert("4"@.len() != "21"@.len());
        assert("33"@[0] != "21"@[0]);
        assert("34"@[0] != "21"@[0]);
        assert("35"@[0] != "21"@[0]);
        assert("36"@[0] != "21"@[0]);
        assert("i"@.len() != "21"@.len());
        assert("ix"@[0] != "21"@[0]);
        assert("5"@.len() != "21"@.len());
        assert("6"@.len() != "21"@.len());
        assert("7"@.len() != "21"@.len());
        assert("8"@.len() != "21"@.len());
        assert("17"@[0] != "21"@[0]);
        assert("18"@[0] != "21"@[0]);
        assert("19"@[0] != "21"@[0]);
        assert("20"@[1] != "21"@[1]);
        assert("29"@[1] != "21"@[1]);
        assert("30"@[0] != "21"@[0]);
        assert("31"@[0] != "21"@[0]);
        assert("32"@[0] != "21"@[0]);
        assert("ii"@[0] != "21"@[0]);
        assert("v"@.len() != "21"@.len());
        assert("viii"@.len() != "21"@.len());
        assert("9"@.len() != "21"@.len());
        assert("10"@[0] != "21"@[0]);
        assert("11"@[0] != "21"@[0]);
        assert("12"@[0] != "21"@[0]);
        assert("25"@[1] != "21"@[1]);
        assert("26"@[1] != "21"@[1]);
        assert("27"@[1] != "21"@[1]);
        assert("28"@[1] != "21"@[1]);
        assert("iii"@.len() != "21"@.len());
        assert("vii"@.len() != "21"@.len());
        assert("13"@[0] != "21"@[0]);
        assert("14"@[0] != "21"@[0]);
        assert("15"@[0] != "21"@[0]);
        assert("16"@[0] != "21"@[0]);
    }
    assert(ep6_theme_for_suffix("22"@) == Some("MayaTemple"@)) by {
        assert("1"@.len() != "22"@.len());
        assert("2"@.len() != "22"@.len());
        assert("3"@.len() != "22"@.len());
        assert("4"@.len() != "22"@.len());
        assert("33"@[0] != "22"@[0]);
        assert("34"@[0] != "22"@[0]);
        assert("35"@[0] != "22"@[0]);
        assert("36"@[0] != "22"@[0]);
        assert("i"@.len() != "22"@.len());
        assert("ix"@[0] != "22"@[0]);
        assert("5"@.len() != "22"@.len());
        assert("6"@.len() != "22"@.len());
        assert("7"@.len() != "22"@.len());
        assert("8"@.len() != "22"@.len());
        assert("17"@[0] != "22"@[0]);
        assert("18"@[0] != "22"@[0]);
        assert("19"@[0] != "22"@[0]);
        assert("20"@[1] != "22"@[1]);
        assert("29"@[1] != "22"@[1]);
        assert("30"@[0] != "22"@[0]);
        assert("31"@[0] != "22"@[0]);
        assert("32"@[0] != "22"@[0]);
        assert("ii"@[0] != "22"@[0]);
        assert("v"@.len() != "22"@.len());
        assert("viii"@.len() != "22"@.len());
        assert("9"@.len() != "22"@.len());
        assert("10"@[0] != "22"@[0]);
        assert("11"@[0] != "22"@[0]);
        assert("12"@[0] != "22"@[0]);
        assert("25"@[1] != "22"@[1]);
        assert("26"@[1] != "22"@[1]);
        assert("27"@[1] != "22"@[1]);
        assert("28"@[1] != "22"@[1]);
        assert("iii"@.len() != "22"@.len());
        assert("vii"@.len() != "22"@.len());
        assert("13"@[0] != "22"@[0]);
        assert("14"@[0] != "22"@[0]);
        assert("15"@[0] != "22"@[0]);
        assert("16"@[0] != "22"@[0]);
        assert("21"@[1] != "22"@[1]);
    }
    assert(ep6_theme_for_suffix("23"@) == Some("MayaTemple"@)) by {
        assert("1"@.len() != "23"@.len());
        assert("2"@.len() != "23"@.len());
        assert("3"@.len() != "23"@.len());
        assert("4"@.len() != "23"@.len());
        assert("33"@[0] != "23"@[0]);
        assert("34"@[0] != "23"@[0]);
        assert("35"@[0] != "23"@[0]);
        assert("36"@[0] != "23"@[0]);
        assert("i"@.len() != "23"@.len());
        assert("ix"@[0] != "23"@[0]);
        assert("5"@.len() != "23"@.len());
        assert("6"@.len() != "23"@.len());
        assert("7"@.len() != "23"@.len());
        assert("8"@.len() != "23"@.len());
        assert("17"@[0] != "23"@[0]);
        assert("18"@[0] != "23"@[0]);
        assert("19"@[0] != "23"@[0]);
        assert("20"@[1] != "23"@[1]);
        assert("29"@[1] != "23"@[1]);
        assert("30"@[0] != "23"@[0]);
        assert("31"@[0] != "23"@[0]);
        assert("32"@[0] != "23"@[0]);
        assert("ii"@[0] != "23"@[0]);
        assert("v"@.len() != "23"@.len());
        assert("viii"@.len() != "23"@.len());
        assert("9"@.len() != "23"@.len());
        assert("10"@[0] != "23"@[0]);
        assert("11"@[0] != "23"@[0]);
        assert("12"@[0] != "23"@[0]);
        assert("25"@[1] != "23"@[1]);
        assert("26"@[1] != "23"@[1]);
        assert("27"@[1] != "23"@[1]);
        assert("28"@[1] != "23"@[1]);
        assert("iii"@.len() != "23"@.len());
        assert("vii"@.len() != "23"@.len());
        assert("13"@[0] != "23"@[0]);
        assert("14"@[0] != "23"@[0]);
        assert("15"@[0] != "23"@[0]);
        assert("16"@[0] != "23"@[0]);
        assert("21"@[1] != "23"@[1]);
        assert("22"@[1] != "23"@[1]);
    }
    assert(ep6_theme_for_suffix("24"@) == Some("MayaTemple"@)) by {
        assert("1"@.len() != "24"@.len());
        assert("2"@.len() != "24"@.len());
        assert("3"@.len() != "24"@.len());
        assert("4"@.len() != "24"@.len());
        assert("33"@[0] != "24"@[0]);
        assert("34"@[0] != "24"@[0]);
        assert("35"@[0] != "24"@[0]);
        assert("36"@[0] != "24"@[0]);
        assert("i"@.len() != "24"@.len());
        assert("ix"@[0] != "24"@[0]);
        assert("5"@.len() != "24"@.len());
        assert("6"@.len() != "24"@.len());
        assert("7"@.len() != "24"@.len());
        assert("8"@.len() != "24"@.len());
        assert("17"@[0] != "24"@[0]);
        assert("18"@[0] != "24"@[0]);
        assert("19"@[0] != "24"@[0]);
        assert("20"@[1] != "24"@[1]);
        assert("29"@[1] != "24"@[1]);
        assert("30"@[0] != "24"@[0]);
        assert("31"@[0] != "24"@[0]);
        assert("32"@[0] != "24"@[0]);
        assert("ii"@[0] != "24"@[0]);
        assert("v"@.len() != "24"@.len());
        assert("viii"@.len() != "24"@.len());
        assert("9"@.len() != "24"@.len());
        assert("10"@[0] != "24"@[0]);
        assert("11"@[0] != "24"@[0]);
        assert("12"@[0] != "24"@[0]);
        assert("25"@[1] != "24"@[1]);
        assert("26"@[1] != "24"@[1]);
        assert("27"@[1] != "24"@[1]);
        assert("28"@[1] != "24"@[1]);
        assert("iii"@.len() != "24"@.len());
        assert("vii"@.len() != "24"@.len());
        assert("13"@[0] != "24"@[0]);
        assert("14"@[0] != "24"@[0]);
        assert("15"@[0] != "24"@[0]);
        assert("16"@[0] != "24"@[0]);
        assert("21"@[1] != "24"@[1]);
        assert("22"@[1] != "24"@[1]);
        assert("23"@[1] != "24"@[1]);
    }
    assert(ep6_theme_for_suffix("iv"@) == Some("MayaTemple"@)) by {
        assert("1"@.len() != "iv"@.len());
        assert("2"@.len() != "iv"@.len());
        assert("3"@.len() != "iv"@.len());
        assert("4"@.len() != "iv"@.len());
        assert("33"@[0] != "iv"@[0]);
        assert("34"@[0] != "iv"@[0]);
        assert("35"@[0] != "iv"@[0]);
        assert("36"@[0] != "iv"@[0]);
        assert("i"@.len() != "iv"@.len());
        assert("ix"@[1] != "iv"@[1]);
        assert("5"@.len() != "iv"@.len());
        assert("6"@.len() != "iv"@.len());
        assert("7"@.len() != "iv"@.len());
        assert("8"@.len() != "iv"@.len());
        assert("17"@[0] != "iv"@[0]);
        assert("18"@[0] != "iv"@[0]);
        assert("19"@[0] != "iv"@[0]);
        assert("20"@[0] != "iv"@[0]);
        assert("29"@[0] != "iv"@[0]);
        assert("30"@[0] != "iv"@[0]);
        assert("31"@[0] != "iv"@[0]);
        assert("32"@[0] != "iv"@[0]);
        assert("ii"@[1] != "iv"@[1]);
        assert("v"@.len() != "iv"@.len());
        assert("viii"@.len() != "iv"@.len());
        assert("9"@.len() != "iv"@.len());
        assert("10"@[0] != "iv"@[0]);
        assert("11"@[0] != "iv"@[0]);
        assert("12"@[0] != "iv"@[0]);
        assert("25"@[0] != "iv"@[0]);
        assert("26"@[0] != "iv"@[0]);
        assert("27"@[0] != "iv"@[0]);
        assert("28"@[0] != "iv"@[0]);
        assert("iii"@.len() != "iv"@.len());
        assert("vii"@.len() != "iv"@.len());
        assert("13"@[0] != "iv"@[0]);
        assert("14"@[0] != "iv"@[0]);
        assert("15"@[0] != "iv"@[0]);
        assert("16"@[0] != "iv"@[0]);
        assert("21"@[0] != "iv"@[0]);
        assert("22"@[0] != "iv"@[0]);
        assert("23"@[0] != "iv"@[0]);
        assert("24"@[0] != "iv"@[0]);
    }
    assert(ep6_theme_for_suffix("vi"@) == Some("MayaTemple"@)) by {
        assert("1"@.len() != "vi"@.len());
        assert("2"@.len() != "vi"@.len());
        assert("3"@.len() != "vi"@.len());
        assert("4"@.len() != "vi"@.len());
        assert("33"@[0] != "vi"@[0]);
        assert("34"@[0] != "vi"@[0]);
        assert("35"@[0] != "vi"@[0]);
        assert("36"@[0] != "vi"@[0]);
        assert("i"@.len() != "vi"@.len());
        assert("ix"@[0] != "vi"@[0]);
        assert("5"@.len() != "vi"@.len());
        assert("6"@.len() != "vi"@.len());
        assert("7"@.len() != "vi"@.len());
        assert("8"@.len() != "vi"@.len());
        assert("17"@[0] != "vi"@[0]);
        assert("18"@[0] != "vi"@[0]);
        assert("19"@[0] != "vi"@[0]);
        assert("20"@[0] != "vi"@[0]);
        assert("29"@[0] != "vi"@[0]);
        assert("30"@[0] != "vi"@[0]);
        assert("31"@[0] != "vi"@[0]);
        assert("32"@[0] != "vi"@[0]);
        assert("ii"@[0] != "vi"@[0]);
        assert("v"@.len() != "vi"@.len());
        assert("viii"@.len() != "vi"@.len());
        assert("9"@.len() != "vi"@.len());
        assert("10"@[0] != "vi"@[0]);
        assert("11"@[0] != "vi"@[0]);
        assert("12"@[0] != "vi"@[0]);
        assert("25"@[0] != "vi"@[0]);
        assert("26"@[0] != "vi"@[0]);
        assert("27"@[0] != "vi"@[0]);
        assert("28"@[0] != "vi"@[0]);
        assert("iii"@.len() != "vi"@.len());
        assert("vii"@.len() != "vi"@.len());
        assert("13"@[0] != "vi"@[0]);
        assert("14"@[0] != "vi"@[0]);
        assert("15"@[0] != "vi"@[0]);
        assert("16"@[0] != "vi"@[0]);
        assert("21"@[0] != "vi"@[0]);
        assert("22"@[0] != "vi"@[0]);
        assert("23"@[0] != "vi"@[0]);
        assert("24"@[0] != "vi"@[0]);
        assert("iv"@[0] != "vi"@[0]);
    }
}

/// Sprites that keep their own material: every name that starts with one
/// of the kept prefixes, or is `Glow`.
pub proof fn lemma_untinted_sprite_names(name: Seq<char>)
    ensures
        starts_with(name, "Crystal_"@) ==> skip_props_tint_spec(name),
        starts_with(name, "Glow_"@) ==> skip_props_tint_spec(name),
        starts_with(name, "GoalArea"@) ==> skip_props_tint_spec(name),
        starts_with(name, "GoalSprite"@) ==> skip_props_tint_spec(name),
        starts_with(name, "Lit"@) ==> skip_props_tint_spec(name),
        starts_with(name, "Secret_"@) ==> skip_props_tint_spec(name),
        starts_with(name, "Star_"@) ==> skip_props_tint_spec(name),
        name == "Glow"@ ==> skip_props_tint_spec(name),
{
}

/// Objects the renderer skips: cloud sets (`Cloud...Set`), the container
/// names, and every name holding a system or decoration marker.
pub proof fn lemma_skipped_object_names(name: Seq<char>)
    ensures
        starts_with(name, "Cloud"@) && ends_with(name, "Set"@) ==> should_skip_render_spec(name),
        name == "Props"@ ==> should_skip_render_spec(name),
        name == "Prop"@ ==> should_skip_render_spec(name),
        name == "Challenges"@ ==> should_skip_render_spec(name),
        name == "DessertPlaces"@ ==> should_skip_render_spec(name),
        name == "LitArea"@ ==> should_skip_render_spec(name),
        name == "reference"@ ==> should_skip_render_spec(name),
        contains(name, "CameraSystem"@) ==> should_skip_render_spec(name),
        contains(name, "LevelManager"@) ==> should_skip_render_spec(name),
        contains(name, "LevelStart"@) ==> should_skip_render_spec(name),
        contains(name, "Background"@) ==> should_skip_render_spec(name),
        contains(name, "Decoration "@) ==> should_skip_render_spec(name),
        contains(name, "DontUsePart"@) ==> should_skip_render_spec(name),
        contains(name, "Challenge"@) ==> should_skip_render_spec(name),
        contains(name, "Tutorial"@) ==> should_skip_render_spec(name),
        contains(name, "Achievement"@) ==> should_skip_render_spec(name),
{
}

/// Object names reach a theme through the first background pattern they
/// hold, in the game's order: a name holding a pattern and none before it
/// has that pattern's theme.
pub proof fn lemma_background_pattern_themes(name: Seq<char>)
    ensures
        contains(name, "MM_Cave_02_SET_DARK"@) ==> legacy_pattern_theme(name) == Some("MayaCave2Dark"@),
        !contains(name, "MM_Cave_02_SET_DARK"@) && contains(name, "MM_Cave_01_SET_DARK"@) ==> legacy_pattern_theme(name) == Some("MayaCaveDark"@),
        !contains(name, "MM_Cave_02_SET_DARK"@) && !contains(name, "MM_Cave_01_SET_DARK"@) && contains(name, "MM_Cave"@) ==> legacy_pattern_theme(name) == Some("MayaCave"@),
        !contains(name, "MM_Cave_02_SET_DARK"@) && !contains(name, "MM_Cave_01_SET_DARK"@) && !contains(name, "MM_Cave"@) && contains(name, "MM_Temple"@) ==> legacy_pattern_theme(name) == Some("MayaTemple"@),
        !contains(name, "MM_Cave_02_SET_DARK"@) && !contains(name, "MM_Cave_01_SET_DARK"@) && !contains(name, "MM_Cave"@) && !contains(name, "MM_Temple"@) && contains(name, "MM_High"@) ==> legacy_pattern_theme(name) == Some("MayaHigh"@),
        !contains(name, "MM_Cave_02_SET_DARK"@) && !contains(name, "MM_Cave_01_SET_DARK"@) && !contains(name, "MM_Cave"@) && !contains(name, "MM_Temple"@) && !contains(name, "MM_High"@) && contains(name, "MM_01_SET"@) ==> legacy_pattern_theme(name) == Some("Maya"@),
        !contains(name, "MM_Cave_02_SET_DARK"@) && !contains(name, "MM_Cave_01_SET_DARK"@) && !contains(name, "MM_Cave"@) && !contains(name, "MM_Temple"@) && !contains(name, "MM_High"@) && !contains(name, "MM_01_SET"@) && contains(name, "MayaCave2Dark"@) ==> legacy_pattern_theme(name) == Some("MayaCave2Dark"@),
        !contains(name, "MM_Cave_02_SET_DARK"@) && !contains(name, "MM_Cave_01_SET_DARK"@) && !contains(name, "MM_Cave"@) && !contains(name, "MM_Temple"@) && !contains(name, "MM_High"@) && !contains(name, "MM_01_SET"@) && !contains(name, "MayaCave2Dark"@) && contains(name, "MayaCaveDark"@) ==> legacy_pattern_theme(name) == Some("MayaCaveDark"@),
        !contains(name, "MM_Cave_02_SET_DARK"@) && !contains(name, "MM_Cave_01_SET_DARK"@) && !contains(name, "MM_Cave"@) && !contains(name, "MM_Temple"@) && !contains(name, "MM_High"@) && !contains(name, "MM_01_SET"@) && !contains(name, "MayaCave2Dark"@) && !contains(name, "MayaCaveDark"@) && contains(name, "MayaCave"@) ==> legacy_pattern_theme(name) == Some("MayaCave"@),
        !contains(name, "MM_Cave_02_SET_DARK"@) && !contains(name, "MM_Cave_01_SET_DARK"@) && !contains(name, "MM_Cave"@) && !contains(name, "MM_Temple"@) && !contains(name, "MM_High"@) && !contains(name, "MM_01_SET"@) && !contains(name, "MayaCave2Dark"@) && !contains(name, "MayaCaveDark"@) && !contains(name, "MayaCave"@) && contains(name, "MayaTemple"@) ==> legacy_pattern_theme(name) == Some("MayaTemple"@),
        !contains(name, "MM_Cave_02_SET_DARK"@) && !contains(name, "MM_Cave_01_SET_DARK"@) && !contains(name, "MM_Cave"@) && !contains(name, "MM_Temple"@) && !contains(name, "MM_High"@) && !contains(name, "MM_01_SET"@) && !contains(name, "MayaCave2Dark"@) && !contains(name, "MayaCaveDark"@) && !contains(name, "MayaCave"@) && !contains(name, "MayaTemple"@) && contains(name, "MayaHigh"@) ==> legacy_pattern_theme(name) == Some("MayaHigh"@),
        !contains(name, "MM_Cave_02_SET_DARK"@) && !contains(name, "MM_Cave_01_SET_DARK"@) && !contains(name, "MM_Cave"@) && !contains(name, "MM_Temple"@) && !contains(name, "MM_High"@) && !contains(name, "MM_01_SET"@) && !contains(name, "MayaCave2Dark"@) && !contains(name, "MayaCaveDark"@) && !contains(name, "MayaCave"@) && !contains(name, "MayaTemple"@) && !contains(name, "MayaHigh"@) && contains(name, "Maya"@) ==> legacy_pattern_theme(name) == Some("Maya"@),
        !contains(name, "MM_Cave_02_SET_DARK"@) && !contains(name, "MM_Cave_01_SET_DARK"@) && !contains(name, "MM_Cave"@) && !contains(name, "MM_Temple"@) && !contains(name, "MM_High"@) && !contains(name, "MM_01_SET"@) && !contains(name, "MayaCave2Dark"@) && !contains(name, "MayaCaveDark"@) && !contains(name, "MayaCave"@) && !contains(name, "MayaTemple"@) && !contains(name, "MayaHigh"@) && !contains(name, "Maya"@) && contains(name, "Jungle"@) ==> legacy_pattern_theme(name) == Some("Jungle"@),
        !contains(name, "MM_Cave_02_SET_DARK"@) && !contains(name, "MM_Cave_01_SET_DARK"@) && !contains(name, "MM_Cave"@) && !contains(name, "MM_Temple"@) && !contains(name, "MM_High"@) && !contains(name, "MM_01_SET"@) && !contains(name, "MayaCave2Dark"@) && !contains(name, "MayaCaveDark"@) && !contains(name, "MayaCave"@) && !contains(name, "MayaTemple"@) && !contains(name, "MayaHigh"@) && !contains(name, "Maya"@) && !contains(name, "Jungle"@) && contains(name, "Plateau"@) ==> legacy_pattern_theme(name) == Some("Plateau"@),
        !contains(name, "MM_Cave_02_SET_DARK"@) && !contains(name, "MM_Cave_01_SET_DARK"@) && !contains(name, "MM_Cave"@) && !contains(name, "MM_Temple"@) && !contains(name, "MM_High"@) && !contains(name, "MM_01_SET"@) && !contains(name, "MayaCave2Dark"@) && !contains(name, "MayaCaveDark"@) && !contains(name, "MayaCave"@) && !contains(name, "MayaTemple"@) && !contains(name, "MayaHigh"@) && !contains(name, "Maya"@) && !contains(name, "Jungle"@) && !contains(name, "Plateau"@) && contains(name, "Morning"@) ==> legacy_pattern_theme(name) == Some("Morning"@),
        !contains(name, "MM_Cave_02_SET_DARK"@) && !contains(name, "MM_Cave_01_SET_DARK"@) && !contains(name, "MM_Cave"@) && !contains(name, "MM_Temple"@) && !contains(name, "MM_High"@) && !contains(name, "MM_01_SET"@) && !contains(name, "MayaCave2Dark"@) && !contains(name, "MayaCaveDark"@) && !contains(name, "MayaCave"@) && !contains(name, "MayaTemple"@) && !contains(name, "MayaHigh"@) && !contains(name, "Maya"@) && !contains(name, "Jungle"@) && !contains(name, "Plateau"@) && !contains(name, "Morning"@) && contains(name, "Forest"@) ==> legacy_pattern_theme(name) == Some("Morning"@),
        !contains(name, "MM_Cave_02_SET_DARK"@) && !contains(name, "MM_Cave_01_SET_DARK"@) && !contains(name, "MM_Cave"@) && !contains(name, "MM_Temple"@) && !contains(name, "MM_High"@) && !contains(name, "MM_01_SET"@) && !contains(name, "MayaCave2Dark"@) && !contains(name, "MayaCaveDark"@) && !contains(name, "MayaCave"@) && !contains(name, "MayaTemple"@) && !contains(name, "MayaHigh"@) && !contains(name, "Maya"@) && !contains(name, "Jungle"@) && !contains(name, "Plateau"@) && !contains(name, "Morning"@) && !contains(name, "Forest"@) && contains(name, "Night"@) ==> legacy_pattern_theme(name) == Some("Night"@),
        !contains(name, "MM_Cave_02_SET_DARK"@) && !contains(name, "MM_Cave_01_SET_DARK"@) && !contains(name, "MM_Cave"@) && !contains(name, "MM_Temple"@) && !contains(name, "MM_High"@) && !contains(name, "MM_01_SET"@) && !contains(name, "MayaCave2Dark"@) && !contains(name, "MayaCaveDark"@) && !contains(name, "MayaCave"@) && !contains(name, "MayaTemple"@) && !contains(name, "MayaHigh"@) && !contains(name, "Maya"@) && !contains(name, "Jungle"@) && !contains(name, "Plateau"@) && !contains(name, "Morning"@) && !contains(name, "Forest"@) && !contains(name, "Night"@) && contains(name, "Halloween"@) ==> legacy_pattern_theme(name) == Some("Halloween"@),
        !contains(name, "MM_Cave_02_SET_DARK"@) && !contains(name, "MM_Cave_01_SET_DARK"@) && !contains(name, "MM_Cave"@) && !contains(name, "MM_Temple"@) && !contains(name, "MM_High"@) && !contains(name, "MM_01_SET"@) && !contains(name, "MayaCave2Dark"@) && !contains(name, "MayaCaveDark"@) && !contains(name, "MayaCave"@) && !contains(name, "MayaTemple"@) && !contains(name, "MayaHigh"@) && !contains(name, "Maya"@) && !contains(name, "Jungle"@) && !contains(name, "Plateau"@) && !contains(name, "Morning"@) && !contains(name, "Forest"@) && !contains(name, "Night"@) && !contains(name, "Halloween"@) && contains(name, "Cave"@) ==> legacy_pattern_theme(name) == Some("Cave"@),
{
}


/// Sandbox level keys name their Episode 6 theme, in any letter case: the
/// dark sandbox is the dark Maya cave, the ice sandbox the temple, the tower
/// sandbox Maya.
pub proof fn lemma_sandbox_level_themes(key: Seq<char>)
    ensures
        contains(lower(key), "episode_6_dark"@) ==> sandbox_theme_spec(key) == Some(
            "MayaCave2Dark"@,
        ),
        !contains(lower(key), "episode_6_dark"@) && contains(lower(key), "episode_6_ice"@)
            ==> sandbox_theme_spec(key) == Some("MayaTemple"@),
        !contains(lower(key), "episode_6_dark"@) && !contains(lower(key), "episode_6_ice"@)
            && contains(lower(key), "episode_6_tower"@) ==> sandbox_theme_spec(key) == Some(
            "Maya"@,
        ),
{
}

} // verus!
