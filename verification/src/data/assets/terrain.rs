//! Terrain name to texture filename maps and lookup helpers.

use vstd::prelude::*;
use crate::text::{
    copy_range, ends_with, ends_with_lit, eq_lit, find, find_lit, is_ascii_digit, is_digit_char,
    opt_view, rfind, rfind_lit, str_chars, trim, trim_chars, trim_end, trim_end_chars,
};

verus! {

/// Truncates `s` at `pos` when a position was found.
pub open spec fn cut(s: Seq<char>, pos: Option<int>) -> Seq<char> {
    match pos {
        Some(p) => s.take(p),
        None => s,
    }
}

/// Strip a transition suffix: `" _ to ..."` or `" - to ..."`.
pub open spec fn strip_transition(s: Seq<char>) -> Seq<char> {
    if find(s, " _ to "@) is Some {
        cut(s, find(s, " _ to "@))
    } else {
        cut(s, find(s, " - to "@))
    }
}

/// Strip a trailing numeric word such as `" 131x3"`, judged on the
/// right-trimmed text.
pub open spec fn strip_numeric_word(s: Seq<char>) -> Seq<char> {
    let t = trim_end(s);
    match rfind(t, " "@) {
        Some(p) => if p + 1 < t.len() && is_ascii_digit(t[p + 1]) {
            s.take(p)
        } else {
            s
        },
        None => s,
    }
}

/// Strip an `_X` / `_x` suffix.
pub open spec fn strip_x_suffix(s: Seq<char>) -> Seq<char> {
    if ends_with(s, "_X"@) || ends_with(s, "_x"@) {
        s.take(s.len() - 2)
    } else {
        s
    }
}

/// Strip a trailing `" -"` and trim again.
pub open spec fn strip_dash_suffix(s: Seq<char>) -> Seq<char> {
    if ends_with(s, " -"@) {
        trim(s.take(s.len() - 2))
    } else {
        s
    }
}

/// A binary terrain object name reduced to its prefab key: transition,
/// `" EP"` and `" - "` annotations cut, a numeric last word dropped, the text
/// trimmed, and `_X` / `" -"` suffixes removed.
pub open spec fn normalize_terrain_spec(raw: Seq<char>) -> Seq<char> {
    let a = strip_transition(raw);
    let b = cut(a, rfind(a, " EP"@));
    let c = cut(b, rfind(b, " - "@));
    let d = trim(strip_numeric_word(c));
    strip_dash_suffix(strip_x_suffix(d))
}

/// The base prefab a terrain name shares textures with.
pub open spec fn resolve_terrain_base_spec(name: Seq<char>) -> Seq<char> {
    let key = normalize_terrain_spec(name);
    match dark_terrain(key) {
        Some(base) => base,
        None => key,
    }
}

/// Looks the normalized key up in `table`, falling back to the base prefab.
pub open spec fn lookup_with_base(
    table: spec_fn(Seq<char>) -> Option<Seq<char>>,
    name: Seq<char>,
) -> Option<Seq<char>> {
    match table(normalize_terrain_spec(name)) {
        Some(v) => Some(v),
        None => table(resolve_terrain_base_spec(name)),
    }
}

pub open spec fn terrain_fill_spec(name: Seq<char>) -> Option<Seq<char>> {
    lookup_with_base(|k: Seq<char>| terrain_fill(k), name)
}

pub open spec fn terrain_splat0_spec(name: Seq<char>) -> Option<Seq<char>> {
    lookup_with_base(|k: Seq<char>| terrain_splat0(k), name)
}

pub open spec fn terrain_splat1_spec(name: Seq<char>) -> Option<Seq<char>> {
    lookup_with_base(|k: Seq<char>| terrain_splat1(k), name)
}

/// The Episode 6 rule first, then the ordinary Splat1 lookup.
pub open spec fn terrain_splat1_for_level_spec(name: Seq<char>) -> Option<Seq<char>> {
    match level_splat1_rule(normalize_terrain_spec(name)) {
        Some(v) => Some(v),
        None => terrain_splat1_spec(name),
    }
}

fn truncate_at(s: Vec<char>, pos: usize) -> (r: Vec<char>)
    requires
        pos <= s@.len(),
    ensures
        r@ == s@.take(pos as int),
{
    copy_range(s.as_slice(), 0, pos)
}

/// Normalize a binary terrain object name to a known prefab key.
pub fn normalize_terrain(raw: &str) -> (r: Vec<char>)
    ensures
        r@ == normalize_terrain_spec(raw@),
{
    let n = str_chars(raw);
    // transition suffixes
    let p1 = find_lit(n.as_slice(), " _ to ");
    let n = match p1 {
        Some(p) => truncate_at(n, p),
        None => match find_lit(n.as_slice(), " - to ") {
            Some(p) => truncate_at(n, p),
            None => n,
        },
    };
    let ghost a = n@;
    // trailing annotations like " EP1"
    let n = match rfind_lit(n.as_slice(), " EP") {
        Some(p) => truncate_at(n, p),
        None => n,
    };
    let ghost b = n@;
    // trailing " - ..."
    let n = match rfind_lit(n.as_slice(), " - ") {
        Some(p) => truncate_at(n, p),
        None => n,
    };
    let ghost c = n@;
    // trailing numeric word like " 131x3"
    let trimmed = trim_end_chars(n.as_slice());
    let n = match rfind_lit(trimmed.as_slice(), " ") {
        Some(p) => {
            if trimmed.len() - p > 1 && is_digit_char(trimmed[p + 1]) {
                truncate_at(n, p)
            } else {
                n
            }
        },
        None => n,
    };
    assert(n@ == strip_numeric_word(c));
    let n = trim_chars(n.as_slice());
    let ghost d = n@;
    proof {
        reveal_strlit("_X");
        reveal_strlit("_x");
        reveal_strlit(" -");
    }
    let n = if ends_with_lit(n.as_slice(), "_X") || ends_with_lit(n.as_slice(), "_x") {
        let len = n.len();
        truncate_at(n, len - 2)
    } else {
        n
    };
    assert(n@ == strip_x_suffix(d));
    let ghost e = n@;
    let n = if ends_with_lit(n.as_slice(), " -") {
        let len = n.len();
        let t = truncate_at(n, len - 2);
        trim_chars(t.as_slice())
    } else {
        n
    };
    assert(n@ == strip_dash_suffix(e));
    n
}

/// Resolve terrain name (possibly dark variant) to its base prefab key.
pub fn resolve_terrain_base(name: &str) -> (r: Vec<char>)
    ensures
        r@ == resolve_terrain_base_spec(name@),
{
    let key = normalize_terrain(name);
    match dark_terrain_map(key.as_slice()) {
        Some(base) => str_chars(base),
        None => key,
    }
}

/// Get the fill texture filename for a terrain object name.
pub fn get_terrain_fill_texture(terrain_name: &str) -> (r: Option<&'static str>)
    ensures
        opt_view(r) == terrain_fill_spec(terrain_name@),
{
    let key = normalize_terrain(terrain_name);
    match terrain_fill_map(key.as_slice()) {
        Some(v) => Some(v),
        None => {
            let base = resolve_terrain_base(terrain_name);
            terrain_fill_map(base.as_slice())
        },
    }
}

/// Get Splat0 (surface/grass) texture filename.
pub fn get_terrain_splat0(terrain_name: &str) -> (r: Option<&'static str>)
    ensures
        opt_view(r) == terrain_splat0_spec(terrain_name@),
{
    let key = normalize_terrain(terrain_name);
    match terrain_splat0_map(key.as_slice()) {
        Some(v) => Some(v),
        None => {
            let base = resolve_terrain_base(terrain_name);
            terrain_splat0_map(base.as_slice())
        },
    }
}

/// Get Splat1 (outline) texture filename.
pub fn get_terrain_splat1(terrain_name: &str) -> (r: Option<&'static str>)
    ensures
        opt_view(r) == terrain_splat1_spec(terrain_name@),
{
    let key = normalize_terrain(terrain_name);
    match terrain_splat1_map(key.as_slice()) {
        Some(v) => Some(v),
        None => {
            let base = resolve_terrain_base(terrain_name);
            terrain_splat1_map(base.as_slice())
        },
    }
}

/// Get Splat1 (outline) texture filename with an Episode 6 MM/Maya fallback
/// rule: MM rock/sand keep `Border.png`, the cave / temple / dark MM groups
/// keep `Border_Maya_Cave.png` (except `e2dTerrainDark_MM_rock`), and every
/// other name takes the ordinary Splat1 lookup. The level key does not take
/// part in the choice.
pub fn get_terrain_splat1_for_level(_level_key: &str, terrain_name: &str) -> (r: Option<&'static str>)
    ensures
        opt_view(r) == terrain_splat1_for_level_spec(terrain_name@),
{
    let key = normalize_terrain(terrain_name);
    match level_splat1_rule_map(key.as_slice()) {
        Some(v) => Some(v),
        None => get_terrain_splat1(terrain_name),
    }
}

/// Some Maya cave / temple / dark prefabs keep their prefab-authored Border
/// splat1 even when level refs point at a shared outline texture.
pub fn terrain_splat1_prefers_prefab_over_level_refs(terrain_name: &str) -> (r: bool)
    ensures
        r == prefers_prefab_splat1(normalize_terrain_spec(terrain_name@)),
{
    let key = normalize_terrain(terrain_name);
    prefers_prefab_splat1_key(key.as_slice())
}

/// Whether this is a "dark" terrain (underground fill).
pub fn is_dark_terrain(terrain_name: &str) -> (r: bool)
    ensures
        r == (dark_terrain(normalize_terrain_spec(terrain_name@)) is Some),
{
    let key = normalize_terrain(terrain_name);
    dark_terrain_map(key.as_slice()).is_some()
}

/// Terrain prefab name to its 512x512 rock fill texture.
pub open spec fn terrain_fill(key: Seq<char>) -> Option<Seq<char>> {
    if key == "e2dTerrainBase"@ {
        Some("Ground_Rocks_Texture.png"@)
    } else if key == "e2dTerrainBase_02"@ {
        Some("Ground_Rocks_Texture_02.png"@)
    } else if key == "e2dTerrainBase_04"@ {
        Some("Ground_Rocks_Texture_04.png"@)
    } else if key == "e2dTerrainBase_05_night"@ {
        Some("Ground_Rocks_Texture.png"@)
    } else if key == "e2dTerrainBase_Halloween"@ {
        Some("Ground_Halloween_Texture.png"@)
    } else if key == "e2dTerrainBase_MM_Ice"@ {
        Some("Ground_Ice_Texture.png"@)
    } else if key == "e2dTerrainBase_morning"@ {
        Some("Ground_Rocks_Texture_06.png"@)
    } else if key == "e2dTerrainBase_MM_rock"@ {
        Some("Ground_Temple_Tile_Texture.png"@)
    } else if key == "e2dTerrainBase_MM_sand"@ {
        Some("Ground_Temple_Rock_Texture.png"@)
    } else if key == "e2dTerrainBase_MM_TempleDarkRock"@ {
        Some("Ground_Temple_cave.png"@)
    } else if key == "e2dTerrainBase_MM_caveSand"@ {
        Some("Ground_Maya_cave_texture.png"@)
    } else if key == "e2dTerrainDark_MM"@ {
        Some("Ground_Temple_Dark_Texture.png"@)
    } else if key == "e2dTerrainDark_MM_rock"@ {
        Some("Ground_Temple_Dark_Texture_02.png"@)
    } else if key == "e2dTerrainDark_MM_TempleDarkRock"@ {
        Some("Ground_Temple_cave_dark.png"@)
    } else if key == "e2dTerrainDark_MM_CaveSand"@ {
        Some("Ground_Maya_cave_texture_bg.png"@)
    } else {
        None
    }
}

/// Looks `key` up in the fill texture table.
pub fn terrain_fill_map(key: &[char]) -> (r: Option<&'static str>)
    ensures
        opt_view(r) == terrain_fill(key@),
{
    if eq_lit(key, "e2dTerrainBase") {
        return Some("Ground_Rocks_Texture.png");
    }
    if eq_lit(key, "e2dTerrainBase_02") {
        return Some("Ground_Rocks_Texture_02.png");
    }
    if eq_lit(key, "e2dTerrainBase_04") {
        return Some("Ground_Rocks_Texture_04.png");
    }
    if eq_lit(key, "e2dTerrainBase_05_night") {
        return Some("Ground_Rocks_Texture.png");
    }
    if eq_lit(key, "e2dTerrainBase_Halloween") {
        return Some("Ground_Halloween_Texture.png");
    }
    if eq_lit(key, "e2dTerrainBase_MM_Ice") {
        return Some("Ground_Ice_Texture.png");
    }
    if eq_lit(key, "e2dTerrainBase_morning") {
        return Some("Ground_Rocks_Texture_06.png");
    }
    if eq_lit(key, "e2dTerrainBase_MM_rock") {
        return Some("Ground_Temple_Tile_Texture.png");
    }
    if eq_lit(key, "e2dTerrainBase_MM_sand") {
        return Some("Ground_Temple_Rock_Texture.png");
    }
    if eq_lit(key, "e2dTerrainBase_MM_TempleDarkRock") {
        return Some("Ground_Temple_cave.png");
    }
    if eq_lit(key, "e2dTerrainBase_MM_caveSand") {
        return Some("Ground_Maya_cave_texture.png");
    }
    if eq_lit(key, "e2dTerrainDark_MM") {
        return Some("Ground_Temple_Dark_Texture.png");
    }
    if eq_lit(key, "e2dTerrainDark_MM_rock") {
        return Some("Ground_Temple_Dark_Texture_02.png");
    }
    if eq_lit(key, "e2dTerrainDark_MM_TempleDarkRock") {
        return Some("Ground_Temple_cave_dark.png");
    }
    if eq_lit(key, "e2dTerrainDark_MM_CaveSand") {
        return Some("Ground_Maya_cave_texture_bg.png");
    }
    None
}

/// Terrain prefab to its Splat0 (surface/grass) 16x16 texture.
pub open spec fn terrain_splat0(key: Seq<char>) -> Option<Seq<char>> {
    if key == "e2dTerrainBase"@ {
        Some("Ground_Grass_Texture.png"@)
    } else if key == "e2dTerrainBase_02"@ {
        Some("Ground_Grass_Texture.png"@)
    } else if key == "e2dTerrainBase_04"@ {
        Some("Ground_Cave_Texture.png"@)
    } else if key == "e2dTerrainBase_05_night"@ {
        Some("Ground_Grass_Texture_02.png"@)
    } else if key == "e2dTerrainBase_Halloween"@ {
        Some("Ground_Halloween_Cream_Texture.png"@)
    } else if key == "e2dTerrainBase_MM_Ice"@ {
        Some("Ground_Snow_Texture.png"@)
    } else if key == "e2dTerrainBase_morning"@ {
        Some("Ground_Grass_Texture_3.png"@)
    } else if key == "e2dTerrainBase_MM_rock"@ {
        Some("Ground_Grass_Maya_Texture.png"@)
    } else if key == "e2dTerrainBase_MM_sand"@ {
        Some("Ground_Grass_Maya_Texture.png"@)
    } else if key == "e2dTerrainBase_MM_TempleDarkRock"@ {
        Some("Ground_Grass_Maya_Texture.png"@)
    } else if key == "e2dTerrainBase_MM_caveSand"@ {
        Some("Ground_Grass_Maya_Texture.png"@)
    } else if key == "e2dTerrainDark_MM"@ {
        Some("Ground_Grass_Texture.png"@)
    } else if key == "e2dTerrainDark_MM_CaveSand"@ {
        Some("Ground_Grass_Texture.png"@)
    } else if key == "e2dTerrainDark_MM_rock"@ {
        Some("Border_Maya_Cave.png"@)
    } else {
        None
    }
}

/// Looks `key` up in the Splat0 table.
pub fn terrain_splat0_map(key: &[char]) -> (r: Option<&'static str>)
    ensures
        opt_view(r) == terrain_splat0(key@),
{
    if eq_lit(key, "e2dTerrainBase") {
        return Some("Ground_Grass_Texture.png");
    }
    if eq_lit(key, "e2dTerrainBase_02") {
        return Some("Ground_Grass_Texture.png");
    }
    if eq_lit(key, "e2dTerrainBase_04") {
        return Some("Ground_Cave_Texture.png");
    }
    if eq_lit(key, "e2dTerrainBase_05_night") {
        return Some("Ground_Grass_Texture_02.png");
    }
    if eq_lit(key, "e2dTerrainBase_Halloween") {
        return Some("Ground_Halloween_Cream_Texture.png");
    }
    if eq_lit(key, "e2dTerrainBase_MM_Ice") {
        return Some("Ground_Snow_Texture.png");
    }
    if eq_lit(key, "e2dTerrainBase_morning") {
        return Some("Ground_Grass_Texture_3.png");
    }
    if eq_lit(key, "e2dTerrainBase_MM_rock") {
        return Some("Ground_Grass_Maya_Texture.png");
    }
    if eq_lit(key, "e2dTerrainBase_MM_sand") {
        return Some("Ground_Grass_Maya_Texture.png");
    }
    if eq_lit(key, "e2dTerrainBase_MM_TempleDarkRock") {
        return Some("Ground_Grass_Maya_Texture.png");
    }
    if eq_lit(key, "e2dTerrainBase_MM_caveSand") {
        return Some("Ground_Grass_Maya_Texture.png");
    }
    if eq_lit(key, "e2dTerrainDark_MM") {
        return Some("Ground_Grass_Texture.png");
    }
    if eq_lit(key, "e2dTerrainDark_MM_CaveSand") {
        return Some("Ground_Grass_Texture.png");
    }
    if eq_lit(key, "e2dTerrainDark_MM_rock") {
        return Some("Border_Maya_Cave.png");
    }
    None
}

/// Terrain prefab to its Splat1 (outline) 16x16 texture.
pub open spec fn terrain_splat1(key: Seq<char>) -> Option<Seq<char>> {
    if key == "e2dTerrainBase"@ {
        Some("Ground_Rocks_Outline_Texture.png"@)
    } else if key == "e2dTerrainBase_02"@ {
        Some("Ground_Rocks_Outline_Texture_02.png"@)
    } else if key == "e2dTerrainBase_04"@ {
        Some("Ground_Rocks_Outline_Texture_04.png"@)
    } else if key == "e2dTerrainBase_05_night"@ {
        Some("Ground_Rocks_Outline_Texture_03.png"@)
    } else if key == "e2dTerrainBase_Halloween"@ {
        Some("Ground_Halloween_Outline_Texture.png"@)
    } else if key == "e2dTerrainBase_MM_Ice"@ {
        Some("Ground_Ice_Outline.png"@)
    } else if key == "e2dTerrainBase_morning"@ {
        Some("Ground_Rocks_Outline_Texture_06.png"@)
    } else if key == "e2dTerrainBase_MM_rock"@ {
        Some("Border.png"@)
    } else if key == "e2dTerrainBase_MM_sand"@ {
        Some("Border.png"@)
    } else if key == "e2dTerrainBase_MM_TempleDarkRock"@ {
        Some("Border_Maya_Cave.png"@)
    } else if key == "e2dTerrainBase_MM_caveSand"@ {
        Some("Border_Maya_Cave.png"@)
    } else if key == "e2dTerrainDark_02"@ {
        Some("Ground_Rocks_Outline_Texture.png"@)
    } else if key == "e2dTerrainDark_03"@ {
        Some("Ground_Rocks_Outline_Texture_03.png"@)
    } else if key == "e2dTerrainDark_05_night(150)"@ {
        Some("Ground_Rocks_Outline_Texture_04.png"@)
    } else if key == "e2dTerrainDark_MM"@ {
        Some("Border_Maya_Cave.png"@)
    } else if key == "e2dTerrainDark_MM_CaveSand"@ {
        Some("Border_Maya_Cave.png"@)
    } else if key == "e2dTerrainDark_MM_rock"@ {
        Some("Border.png"@)
    } else if key == "e2dTerrainDark_MM_TempleDarkRock"@ {
        Some("Border_Maya_Cave.png"@)
    } else {
        None
    }
}

/// Looks `key` up in the Splat1 table.
pub fn terrain_splat1_map(key: &[char]) -> (r: Option<&'static str>)
    ensures
        opt_view(r) == terrain_splat1(key@),
{
    if eq_lit(key, "e2dTerrainBase") {
        return Some("Ground_Rocks_Outline_Texture.png");
    }
    if eq_lit(key, "e2dTerrainBase_02") {
        return Some("Ground_Rocks_Outline_Texture_02.png");
    }
    if eq_lit(key, "e2dTerrainBase_04") {
        return Some("Ground_Rocks_Outline_Texture_04.png");
    }
    if eq_lit(key, "e2dTerrainBase_05_night") {
        return Some("Ground_Rocks_Outline_Texture_03.png");
    }
    if eq_lit(key, "e2dTerrainBase_Halloween") {
        return Some("Ground_Halloween_Outline_Texture.png");
    }
    if eq_lit(key, "e2dTerrainBase_MM_Ice") {
        return Some("Ground_Ice_Outline.png");
    }
    if eq_lit(key, "e2dTerrainBase_morning") {
        return Some("Ground_Rocks_Outline_Texture_06.png");
    }
    if eq_lit(key, "e2dTerrainBase_MM_rock") {
        return Some("Border.png");
    }
    if eq_lit(key, "e2dTerrainBase_MM_sand") {
        return Some("Border.png");
    }
    if eq_lit(key, "e2dTerrainBase_MM_TempleDarkRock") {
        return Some("Border_Maya_Cave.png");
    }
    if eq_lit(key, "e2dTerrainBase_MM_caveSand") {
        return Some("Border_Maya_Cave.png");
    }
    if eq_lit(key, "e2dTerrainDark_02") {
        return Some("Ground_Rocks_Outline_Texture.png");
    }
    if eq_lit(key, "e2dTerrainDark_03") {
        return Some("Ground_Rocks_Outline_Texture_03.png");
    }
    if eq_lit(key, "e2dTerrainDark_05_night(150)") {
        return Some("Ground_Rocks_Outline_Texture_04.png");
    }
    if eq_lit(key, "e2dTerrainDark_MM") {
        return Some("Border_Maya_Cave.png");
    }
    if eq_lit(key, "e2dTerrainDark_MM_CaveSand") {
        return Some("Border_Maya_Cave.png");
    }
    if eq_lit(key, "e2dTerrainDark_MM_rock") {
        return Some("Border.png");
    }
    if eq_lit(key, "e2dTerrainDark_MM_TempleDarkRock") {
        return Some("Border_Maya_Cave.png");
    }
    None
}

/// Dark terrain variants to the base prefab name they share textures with.
pub open spec fn dark_terrain(key: Seq<char>) -> Option<Seq<char>> {
    if key == "e2dTerrainDark"@ {
        Some("e2dTerrainBase"@)
    } else if key == "e2dTerrainDark_02"@ {
        Some("e2dTerrainBase_02"@)
    } else if key == "e2dTerrainDark_03"@ {
        Some("e2dTerrainBase_02"@)
    } else if key == "e2dTerrainDark_05_night(150)"@ {
        Some("e2dTerrainBase_05_night"@)
    } else if key == "e2dTerrainDark_MM"@ {
        Some("e2dTerrainBase_MM_sand"@)
    } else if key == "e2dTerrainDark_MM_CaveSand"@ {
        Some("e2dTerrainBase_MM_caveSand"@)
    } else if key == "e2dTerrainDark_MM_TempleDarkRock"@ {
        Some("e2dTerrainBase_MM_TempleDarkRock"@)
    } else if key == "e2dTerrainDark_MM_rock"@ {
        Some("e2dTerrainBase_MM_rock"@)
    } else if key == "e2dTerrainDark Halloween"@ {
        Some("e2dTerrainBase_Halloween"@)
    } else if key == "e2dTerrainDark morning"@ {
        Some("e2dTerrainBase_morning"@)
    } else if key == "e2dTerrainDark_morning"@ {
        Some("e2dTerrainBase_morning"@)
    } else if key == "e2dTerrainDark cave"@ {
        Some("e2dTerrainBase"@)
    } else if key == "e2dTerrainDark_cave"@ {
        Some("e2dTerrainBase"@)
    } else {
        None
    }
}

/// Looks `key` up in the dark variant table.
pub fn dark_terrain_map(key: &[char]) -> (r: Option<&'static str>)
    ensures
        opt_view(r) == dark_terrain(key@),
{
    if eq_lit(key, "e2dTerrainDark") {
        return Some("e2dTerrainBase");
    }
    if eq_lit(key, "e2dTerrainDark_02") {
        return Some("e2dTerrainBase_02");
    }
    if eq_lit(key, "e2dTerrainDark_03") {
        return Some("e2dTerrainBase_02");
    }
    if eq_lit(key, "e2dTerrainDark_05_night(150)") {
        return Some("e2dTerrainBase_05_night");
    }
    if eq_lit(key, "e2dTerrainDark_MM") {
        return Some("e2dTerrainBase_MM_sand");
    }
    if eq_lit(key, "e2dTerrainDark_MM_CaveSand") {
        return Some("e2dTerrainBase_MM_caveSand");
    }
    if eq_lit(key, "e2dTerrainDark_MM_TempleDarkRock") {
        return Some("e2dTerrainBase_MM_TempleDarkRock");
    }
    if eq_lit(key, "e2dTerrainDark_MM_rock") {
        return Some("e2dTerrainBase_MM_rock");
    }
    if eq_lit(key, "e2dTerrainDark Halloween") {
        return Some("e2dTerrainBase_Halloween");
    }
    if eq_lit(key, "e2dTerrainDark morning") {
        return Some("e2dTerrainBase_morning");
    }
    if eq_lit(key, "e2dTerrainDark_morning") {
        return Some("e2dTerrainBase_morning");
    }
    if eq_lit(key, "e2dTerrainDark cave") {
        return Some("e2dTerrainBase");
    }
    if eq_lit(key, "e2dTerrainDark_cave") {
        return Some("e2dTerrainBase");
    }
    None
}

/// The Episode 6 MM/Maya outline rule: prefab-authored borders by normalized key.
pub open spec fn level_splat1_rule(key: Seq<char>) -> Option<Seq<char>> {
    if key == "e2dTerrainBase_MM_rock"@ {
        Some("Border.png"@)
    } else if key == "e2dTerrainBase_MM_sand"@ {
        Some("Border.png"@)
    } else if key == "e2dTerrainBase_MM_Ice"@ {
        Some("Ground_Ice_Outline.png"@)
    } else if key == "e2dTerrainBase_MM_TempleDarkRock"@ {
        Some("Border_Maya_Cave.png"@)
    } else if key == "e2dTerrainBase_MM_caveSand"@ {
        Some("Border_Maya_Cave.png"@)
    } else if key == "e2dTerrainDark_MM"@ {
        Some("Border_Maya_Cave.png"@)
    } else if key == "e2dTerrainDark_MM_CaveSand"@ {
        Some("Border_Maya_Cave.png"@)
    } else if key == "e2dTerrainDark_MM_TempleDarkRock"@ {
        Some("Border_Maya_Cave.png"@)
    } else if key == "e2dTerrainDark_MM_rock"@ {
        Some("Border.png"@)
    } else {
        None
    }
}

/// Looks `key` up in the Episode 6 outline rule.
pub fn level_splat1_rule_map(key: &[char]) -> (r: Option<&'static str>)
    ensures
        opt_view(r) == level_splat1_rule(key@),
{
    if eq_lit(key, "e2dTerrainBase_MM_rock") {
        return Some("Border.png");
    }
    if eq_lit(key, "e2dTerrainBase_MM_sand") {
        return Some("Border.png");
    }
    if eq_lit(key, "e2dTerrainBase_MM_Ice") {
        return Some("Ground_Ice_Outline.png");
    }
    if eq_lit(key, "e2dTerrainBase_MM_TempleDarkRock") {
        return Some("Border_Maya_Cave.png");
    }
    if eq_lit(key, "e2dTerrainBase_MM_caveSand") {
        return Some("Border_Maya_Cave.png");
    }
    if eq_lit(key, "e2dTerrainDark_MM") {
        return Some("Border_Maya_Cave.png");
    }
    if eq_lit(key, "e2dTerrainDark_MM_CaveSand") {
        return Some("Border_Maya_Cave.png");
    }
    if eq_lit(key, "e2dTerrainDark_MM_TempleDarkRock") {
        return Some("Border_Maya_Cave.png");
    }
    if eq_lit(key, "e2dTerrainDark_MM_rock") {
        return Some("Border.png");
    }
    None
}

/// Maya cave, temple and dark groups whose prefab border outranks level refs.
pub open spec fn prefers_prefab_splat1(s: Seq<char>) -> bool {
    ||| s == "e2dTerrainBase_MM_rock"@
    ||| s == "e2dTerrainBase_MM_sand"@
    ||| s == "e2dTerrainBase_MM_TempleDarkRock"@
    ||| s == "e2dTerrainBase_MM_caveSand"@
    ||| s == "e2dTerrainDark_MM"@
    ||| s == "e2dTerrainDark_MM_CaveSand"@
    ||| s == "e2dTerrainDark_MM_TempleDarkRock"@
    ||| s == "e2dTerrainDark_MM_rock"@
}

/// Whether the normalized key keeps its prefab border.
pub fn prefers_prefab_splat1_key(s: &[char]) -> (r: bool)
    ensures
        r == prefers_prefab_splat1(s@),
{
    if eq_lit(s, "e2dTerrainBase_MM_rock") {
        return true;
    }
    if eq_lit(s, "e2dTerrainBase_MM_sand") {
        return true;
    }
    if eq_lit(s, "e2dTerrainBase_MM_TempleDarkRock") {
        return true;
    }
    if eq_lit(s, "e2dTerrainBase_MM_caveSand") {
        return true;
    }
    if eq_lit(s, "e2dTerrainDark_MM") {
        return true;
    }
    if eq_lit(s, "e2dTerrainDark_MM_CaveSand") {
        return true;
    }
    if eq_lit(s, "e2dTerrainDark_MM_TempleDarkRock") {
        return true;
    }
    if eq_lit(s, "e2dTerrainDark_MM_rock") {
        return true;
    }
    false
}



// ── The game's terrain tables ───────────────────────

/// The 512x512 rock fill texture of each terrain prefab, as the game's prefabs give it.
pub proof fn lemma_terrain_fill_textures()
    ensures
        terrain_fill("e2dTerrainBase"@) == Some("Ground_Rocks_Texture.png"@),
        terrain_fill("e2dTerrainBase_02"@) == Some("Ground_Rocks_Texture_02.png"@),
        terrain_fill("e2dTerrainBase_04"@) == Some("Ground_Rocks_Texture_04.png"@),
        terrain_fill("e2dTerrainBase_05_night"@) == Some("Ground_Rocks_Texture.png"@),
        terrain_fill("e2dTerrainBase_Halloween"@) == Some("Ground_Halloween_Texture.png"@),
        terrain_fill("e2dTerrainBase_MM_Ice"@) == Some("Ground_Ice_Texture.png"@),
        terrain_fill("e2dTerrainBase_morning"@) == Some("Ground_Rocks_Texture_06.png"@),
        terrain_fill("e2dTerrainBase_MM_rock"@) == Some("Ground_Temple_Tile_Texture.png"@),
        terrain_fill("e2dTerrainBase_MM_sand"@) == Some("Ground_Temple_Rock_Texture.png"@),
        terrain_fill("e2dTerrainBase_MM_TempleDarkRock"@) == Some("Ground_Temple_cave.png"@),
        terrain_fill("e2dTerrainBase_MM_caveSand"@) == Some("Ground_Maya_cave_texture.png"@),
        terrain_fill("e2dTerrainDark_MM"@) == Some("Ground_Temple_Dark_Texture.png"@),
        terrain_fill("e2dTerrainDark_MM_rock"@) == Some("Ground_Temple_Dark_Texture_02.png"@),
        terrain_fill("e2dTerrainDark_MM_TempleDarkRock"@) == Some("Ground_Temple_cave_dark.png"@),
        terrain_fill("e2dTerrainDark_MM_CaveSand"@) == Some("Ground_Maya_cave_texture_bg.png"@),
{
    reveal_strlit("e2dTerrainBase");
    reveal_strlit("e2dTerrainBase_02");
    reveal_strlit("e2dTerrainBase_04");
    reveal_strlit("e2dTerrainBase_05_night");
    reveal_strlit("e2dTerrainBase_Halloween");
    reveal_strlit("e2dTerrainBase_MM_Ice");
    reveal_strlit("e2dTerrainBase_MM_TempleDarkRock");
    reveal_strlit("e2dTerrainBase_MM_caveSand");
    reveal_strlit("e2dTerrainBase_MM_rock");
    reveal_strlit("e2dTerrainBase_MM_sand");
    reveal_strlit("e2dTerrainBase_morning");
    reveal_strlit("e2dTerrainDark_MM");
    reveal_strlit("e2dTerrainDark_MM_CaveSand");
    reveal_strlit("e2dTerrainDark_MM_TempleDarkRock");
    reveal_strlit("e2dTerrainDark_MM_rock");
    assert(terrain_fill("e2dTerrainBase"@) == Some("Ground_Rocks_Texture.png"@)) by {
    }
    assert(terrain_fill("e2dTerrainBase_02"@) == Some("Ground_Rocks_Texture_02.png"@)) by {
        assert("e2dTerrainBase"@.len() != "e2dTerrainBase_02"@.len());
    }
    assert(terrain_fill("e2dTerrainBase_04"@) == Some("Ground_Rocks_Texture_04.png"@)) by {
        assert("e2dTerrainBase"@.len() != "e2dTerrainBase_04"@.len());
        assert("e2dTerrainBase_02"@[16] != "e2dTerrainBase_04"@[16]);
    }
    assert(terrain_fill("e2dTerrainBase_05_night"@) == Some("Ground_Rocks_Texture.png"@)) by {
        assert("e2dTerrainBase"@.len() != "e2dTerrainBase_05_night"@.len());
        assert("e2dTerrainBase_02"@.len() != "e2dTerrainBase_05_night"@.len());
        assert("e2dTerrainBase_04"@.len() != "e2dTerrainBase_05_night"@.len());
    }
    assert(terrain_fill("e2dTerrainBase_Halloween"@) == Some("Ground_Halloween_Texture.png"@)) by {
        assert("e2dTerrainBase"@.len() != "e2dTerrainBase_Halloween"@.len());
        assert("e2dTerrainBase_02"@.len() != "e2dTerrainBase_Halloween"@.len());
        assert("e2dTerrainBase_04"@.len() != "e2dTerrainBase_Halloween"@.len());
        assert("e2dTerrainBase_05_night"@.len() != "e2dTerrainBase_Halloween"@.len());
    }
    assert(terrain_fill("e2dTerrainBase_MM_Ice"@) == Some("Ground_Ice_Texture.png"@)) by {
        assert("e2dTerrainBase"@.len() != "e2dTerrainBase_MM_Ice"@.len());
        assert("e2dTerrainBase_02"@.len() != "e2dTerrainBase_MM_Ice"@.len());
        assert("e2dTerrainBase_04"@.len() != "e2dTerrainBase_MM_Ice"@.len());
        assert("e2dTerrainBase_05_night"@.len() != "e2dTerrainBase_MM_Ice"@.len());
        assert("e2dTerrainBase_Halloween"@.len() != "e2dTerrainBase_MM_Ice"@.len());
    }
    assert(terrain_fill("e2dTerrainBase_morning"@) == Some("Ground_Rocks_Texture_06.png"@)) by {
        assert("e2dTerrainBase"@.len() != "e2dTerrainBase_morning"@.len());
        assert("e2dTerrainBase_02"@.len() != "e2dTerrainBase_morning"@.len());
        assert("e2dTerrainBase_04"@.len() != "e2dTerrainBase_morning"@.len());
        assert("e2dTerrainBase_05_night"@.len() != "e2dTerrainBase_morning"@.len());
        assert("e2dTerrainBase_Halloween"@.len() != "e2dTerrainBase_morning"@.len());
        assert("e2dTerrainBase_MM_Ice"@.len() != "e2dTerrainBase_morning"@.len());
    }
    assert(terrain_fill("e2dTerrainBase_MM_rock"@) == Some("Ground_Temple_Tile_Texture.png"@)) by {
        assert("e2dTerrainBase"@.len() != "e2dTerrainBase_MM_rock"@.len());
        assert("e2dTerrainBase_02"@.len() != "e2dTerrainBase_MM_rock"@.len());
        assert("e2dTerrainBase_04"@.len() != "e2dTerrainBase_MM_rock"@.len());
        assert("e2dTerrainBase_05_night"@.len() != "e2dTerrainBase_MM_rock"@.len());
        assert("e2dTerrainBase_Halloween"@.len() != "e2dTerrainBase_MM_rock"@.len());
        assert("e2dTerrainBase_MM_Ice"@.len() != "e2dTerrainBase_MM_rock"@.len());
        assert("e2dTerrainBase_morning"@[15] != "e2dTerrainBase_MM_rock"@[15]);
    }
    assert(terrain_fill("e2dTerrainBase_MM_sand"@) == Some("Ground_Temple_Rock_Texture.png"@)) by {
        assert("e2dTerrainBase"@.len() != "e2dTerrainBase_MM_sand"@.len());
        assert("e2dTerrainBase_02"@.len() != "e2dTerrainBase_MM_sand"@.len());
        assert("e2dTerrainBase_04"@.len() != "e2dTerrainBase_MM_sand"@.len());
        assert("e2dTerrainBase_05_night"@.len() != "e2dTerrainBase_MM_sand"@.len());
        assert("e2dTerrainBase_Halloween"@.len() != "e2dTerrainBase_MM_sand"@.len());
        assert("e2dTerrainBase_MM_Ice"@.len() != "e2dTerrainBase_MM_sand"@.len());
        assert("e2dTerrainBase_morning"@[15] != "e2dTerrainBase_MM_sand"@[15]);
        assert("e2dTerrainBase_MM_rock"@[18] != "e2dTerrainBase_MM_sand"@[18]);
    }
    assert(terrain_fill("e2dTerrainBase_MM_TempleDarkRock"@) == Some("Ground_Temple_cave.png"@)) by {
        assert("e2dTerrainBase"@.len() != "e2dTerrainBase_MM_TempleDarkRock"@.len());
        assert("e2dTerrainBase_02"@.len() != "e2dTerrainBase_MM_TempleDarkRock"@.len());
        assert("e2dTerrainBase_04"@.len() != "e2dTerrainBase_MM_TempleDarkRock"@.len());
        assert("e2dTerrainBase_05_night"@.len() != "e2dTerrainBase_MM_TempleDarkRock"@.len());
        assert("e2dTerrainBase_Halloween"@.len() != "e2dTerrainBase_MM_TempleDarkRock"@.len());
        assert("e2dTerrainBase_MM_Ice"@.len() != "e2dTerrainBase_MM_TempleDarkRock"@.len());
        assert("e2dTerrainBase_morning"@.len() != "e2dTerrainBase_MM_TempleDarkRock"@.len());
        assert("e2dTerrainBase_MM_rock"@.len() != "e2dTerrainBase_MM_TempleDarkRock"@.len());
        assert("e2dTerrainBase_MM_sand"@.len() != "e2dTerrainBase_MM_TempleDarkRock"@.len());
    }
    assert(terrain_fill("e2dTerrainBase_MM_caveSand"@) == Some("Ground_Maya_cave_texture.png"@)) by {
        assert("e2dTerrainBase"@.len() != "e2dTerrainBase_MM_caveSand"@.len());
        assert("e2dTerrainBase_02"@.len() != "e2dTerrainBase_MM_caveSand"@.len());
        assert("e2dTerrainBase_04"@.len() != "e2dTerrainBase_MM_caveSand"@.len());
        assert("e2dTerrainBase_05_night"@.len() != "e2dTerrainBase_MM_caveSand"@.len());
        assert("e2dTerrainBase_Halloween"@.len() != "e2dTerrainBase_MM_caveSand"@.len());
        assert("e2dTerrainBase_MM_Ice"@.len() != "e2dTerrainBase_MM_caveSand"@.len());
        assert("e2dTerrainBase_morning"@.len() != "e2dTerrainBase_MM_caveSand"@.len());
        assert("e2dTerrainBase_MM_rock"@.len() != "e2dTerrainBase_MM_caveSand"@.len());
        assert("e2dTerrainBase_MM_sand"@.len() != "e2dTerrainBase_MM_caveSand"@.len());
        assert("e2dTerrainBase_MM_TempleDarkRock"@.len() != "e2dTerrainBase_MM_caveSand"@.len());
    }
    assert(terrain_fill("e2dTerrainDark_MM"@) == Some("Ground_Temple_Dark_Texture.png"@)) by {
        assert("e2dTerrainBase"@.len() != "e2dTerrainDark_MM"@.len());
        assert("e2dTerrainBase_02"@[10] != "e2dTerrainDark_MM"@[10]);
        assert("e2dTerrainBase_04"@[10] != "e2dTerrainDark_MM"@[10]);
        assert("e2dTerrainBase_05_night"@.len() != "e2dTerrainDark_MM"@.len());
        assert("e2dTerrainBase_Halloween"@.len() != "e2dTerrainDark_MM"@.len());
        assert("e2dTerrainBase_MM_Ice"@.len() != "e2dTerrainDark_MM"@.len());
        assert("e2dTerrainBase_morning"@.len() != "e2dTerrainDark_MM"@.len());
        assert("e2dTerrainBase_MM_rock"@.len() != "e2dTerrainDark_MM"@.len());
        assert("e2dTerrainBase_MM_sand"@.len() != "e2dTerrainDark_MM"@.len());
        assert("e2dTerrainBase_MM_TempleDarkRock"@.len() != "e2dTerrainDark_MM"@.len());
        assert("e2dTerrainBase_MM_caveSand"@.len() != "e2dTerrainDark_MM"@.len());
    }
    assert(terrain_fill("e2dTerrainDark_MM_rock"@) == Some("Ground_Temple_Dark_Texture_02.png"@)) by {
        assert("e2dTerrainBase"@.len() != "e2dTerrainDark_MM_rock"@.len());
        assert("e2dTerrainBase_02"@.len() != "e2dTerrainDark_MM_rock"@.len());
        assert("e2dTerrainBase_04"@.len() != "e2dTerrainDark_MM_rock"@.len());
        assert("e2dTerrainBase_05_night"@.len() != "e2dTerrainDark_MM_rock"@.len());
        assert("e2dTerrainBase_Halloween"@.len() != "e2dTerrainDark_MM_rock"@.len());
        assert("e2dTerrainBase_MM_Ice"@.len() != "e2dTerrainDark_MM_rock"@.len());
        assert("e2dTerrainBase_morning"@[10] != "e2dTerrainDark_MM_rock"@[10]);
        assert("e2dTerrainBase_MM_rock"@[10] != "e2dTerrainDark_MM_rock"@[10]);
        assert("e2dTerrainBase_MM_sand"@[10] != "e2dTerrainDark_MM_rock"@[10]);
        assert("e2dTerrainBase_MM_TempleDarkRock"@.len() != "e2dTerrainDark_MM_rock"@.len());
        assert("e2dTerrainBase_MM_caveSand"@.len() != "e2dTerrainDark_MM_rock"@.len());
        assert("e2dTerrainDark_MM"@.len() != "e2dTerrainDark_MM_rock"@.len());
    }
    assert(terrain_fill("e2dTerrainDark_MM_TempleDarkRock"@) == Some("Ground_Temple_cave_dark.png"@)) by {
        assert("e2dTerrainBase"@.len() != "e2dTerrainDark_MM_TempleDarkRock"@.len());
        assert("e2dTerrainBase_02"@.len() != "e2dTerrainDark_MM_TempleDarkRock"@.len());
        assert("e2dTerrainBase_04"@.len() != "e2dTerrainDark_MM_TempleDarkRock"@.len());
        assert("e2dTerrainBase_05_night"@.len() != "e2dTerrainDark_MM_TempleDarkRock"@.len());
        assert("e2dTerrainBase_Halloween"@.len() != "e2dTerrainDark_MM_TempleDarkRock"@.len());
        assert("e2dTerrainBase_MM_Ice"@.len() != "e2dTerrainDark_MM_TempleDarkRock"@.len());
        assert("e2dTerrainBase_morning"@.len() != "e2dTerrainDark_MM_TempleDarkRock"@.len());
        assert("e2dTerrainBase_MM_rock"@.len() != "e2dTerrainDark_MM_TempleDarkRock"@.len());
        assert("e2dTerrainBase_MM_sand"@.len() != "e2dTerrainDark_MM_TempleDarkRock"@.len());
        assert("e2dTerrainBase_MM_TempleDarkRock"@[10] != "e2dTerrainDark_MM_TempleDarkRock"@[10]);
        assert("e2dTerrainBase_MM_caveSand"@.len() != "e2dTerrainDark_MM_TempleDarkRock"@.len());
        assert("e2dTerrainDark_MM"@.len() != "e2dTerrainDark_MM_TempleDarkRock"@.len());
        assert("e2dTerrainDark_MM_rock"@.len() != "e2dTerrainDark_MM_TempleDarkRock"@.len());
    }
    assert(terrain_fill("e2dTerrainDark_MM_CaveSand"@) == Some("Ground_Maya_cave_texture_bg.png"@)) by {
        assert("e2dTerrainBase"@.len() != "e2dTerrainDark_MM_CaveSand"@.len());
        assert("e2dTerrainBase_02"@.len() != "e2dTerrainDark_MM_CaveSand"@.len());
        assert("e2dTerrainBase_04"@.len() != "e2dTerrainDark_MM_CaveSand"@.len());
        assert("e2dTerrainBase_05_night"@.len() != "e2dTerrainDark_MM_CaveSand"@.len());
        assert("e2dTerrainBase_Halloween"@.len() != "e2dTerrainDark_MM_CaveSand"@.len());
        assert("e2dTerrainBase_MM_Ice"@.len() != "e2dTerrainDark_MM_CaveSand"@.len());
        assert("e2dTerrainBase_morning"@.len() != "e2dTerrainDark_MM_CaveSand"@.len());
        assert("e2dTerrainBase_MM_rock"@.len() != "e2dTerrainDark_MM_CaveSand"@.len());
        assert("e2dTerrainBase_MM_sand"@.len() != "e2dTerrainDark_MM_CaveSand"@.len());
        assert("e2dTerrainBase_MM_TempleDarkRock"@.len() != "e2dTerrainDark_MM_CaveSand"@.len());
        assert("e2dTerrainBase_MM_caveSand"@[10] != "e2dTerrainDark_MM_CaveSand"@[10]);
        assert("e2dTerrainDark_MM"@.len() != "e2dTerrainDark_MM_CaveSand"@.len());
        assert("e2dTerrainDark_MM_rock"@.len() != "e2dTerrainDark_MM_CaveSand"@.len());
        assert("e2dTerrainDark_MM_TempleDarkRock"@.len() != "e2dTerrainDark_MM_CaveSand"@.len());
    }
}

/// The Splat0 (surface) texture of each terrain prefab, as the game's prefabs give it.
pub proof fn lemma_terrain_surface_textures()
    ensures
        terrain_splat0("e2dTerrainBase"@) == Some("Ground_Grass_Texture.png"@),
        terrain_splat0("e2dTerrainBase_02"@) == Some("Ground_Grass_Texture.png"@),
        terrain_splat0("e2dTerrainBase_04"@) == Some("Ground_Cave_Texture.png"@),
        terrain_splat0("e2dTerrainBase_05_night"@) == Some("Ground_Grass_Texture_02.png"@),
        terrain_splat0("e2dTerrainBase_Halloween"@) == Some("Ground_Halloween_Cream_Texture.png"@),
        terrain_splat0("e2dTerrainBase_MM_Ice"@) == Some("Ground_Snow_Texture.png"@),
        terrain_splat0("e2dTerrainBase_morning"@) == Some("Ground_Grass_Texture_3.png"@),
        terrain_splat0("e2dTerrainBase_MM_rock"@) == Some("Ground_Grass_Maya_Texture.png"@),
        terrain_splat0("e2dTerrainBase_MM_sand"@) == Some("Ground_Grass_Maya_Texture.png"@),
        terrain_splat0("e2dTerrainBase_MM_TempleDarkRock"@) == Some("Ground_Grass_Maya_Texture.png"@),
        terrain_splat0("e2dTerrainBase_MM_caveSand"@) == Some("Ground_Grass_Maya_Texture.png"@),
        terrain_splat0("e2dTerrainDark_MM"@) == Some("Ground_Grass_Texture.png"@),
        terrain_splat0("e2dTerrainDark_MM_CaveSand"@) == Some("Ground_Grass_Texture.png"@),
        terrain_splat0("e2dTerrainDark_MM_rock"@) == Some("Border_Maya_Cave.png"@),
{
    reveal_strlit("e2dTerrainBase");
    reveal_strlit("e2dTerrainBase_02");
    reveal_strlit("e2dTerrainBase_04");
    reveal_strlit("e2dTerrainBase_05_night");
    reveal_strlit("e2dTerrainBase_Halloween");
    reveal_strlit("e2dTerrainBase_MM_Ice");
    reveal_strlit("e2dTerrainBase_MM_TempleDarkRock");
    reveal_strlit("e2dTerrainBase_MM_caveSand");
    reveal_strlit("e2dTerrainBase_MM_rock");
    reveal_strlit("e2dTerrainBase_MM_sand");
    reveal_strlit("e2dTerrainBase_morning");
    reveal_strlit("e2dTerrainDark_MM");
    reveal_strlit("e2dTerrainDark_MM_CaveSand");
    reveal_strlit("e2dTerrainDark_MM_rock");
    assert(terrain_splat0("e2dTerrainBase"@) == Some("Ground_Grass_Texture.png"@)) by {
    }
    assert(terrain_splat0("e2dTerrainBase_02"@) == Some("Ground_Grass_Texture.png"@)) by {
        assert("e2dTerrainBase"@.len() != "e2dTerrainBase_02"@.len());
    }
    assert(terrain_splat0("e2dTerrainBase_04"@) == Some("Ground_Cave_Texture.png"@)) by {
        assert("e2dTerrainBase"@.len() != "e2dTerrainBase_04"@.len());
        assert("e2dTerrainBase_02"@[16] != "e2dTerrainBase_04"@[16]);
    }
    assert(terrain_splat0("e2dTerrainBase_05_night"@) == Some("Ground_Grass_Texture_02.png"@)) by {
        assert("e2dTerrainBase"@.len() != "e2dTerrainBase_05_night"@.len());
        assert("e2dTerrainBase_02"@.len() != "e2dTerrainBase_05_night"@.len());
        assert("e2dTerrainBase_04"@.len() != "e2dTerrainBase_05_night"@.len());
    }
    assert(terrain_splat0("e2dTerrainBase_Halloween"@) == Some("Ground_Halloween_Cream_Texture.png"@)) by {
        assert("e2dTerrainBase"@.len() != "e2dTerrainBase_Halloween"@.len());
        assert("e2dTerrainBase_02"@.len() != "e2dTerrainBase_Halloween"@.len());
        assert("e2dTerrainBase_04"@.len() != "e2dTerrainBase_Halloween"@.len());
        assert("e2dTerrainBase_05_night"@.len() != "e2dTerrainBase_Halloween"@.len());
    }
    assert(terrain_splat0("e2dTerrainBase_MM_Ice"@) == Some("Ground_Snow_Texture.png"@)) by {
        assert("e2dTerrainBase"@.len() != "e2dTerrainBase_MM_Ice"@.len());
        assert("e2dTerrainBase_02"@.len() != "e2dTerrainBase_MM_Ice"@.len());
        assert("e2dTerrainBase_04"@.len() != "e2dTerrainBase_MM_Ice"@.len());
        assert("e2dTerrainBase_05_night"@.len() != "e2dTerrainBase_MM_Ice"@.len());
        assert("e2dTerrainBase_Halloween"@.len() != "e2dTerrainBase_MM_Ice"@.len());
    }
    assert(terrain_splat0("e2dTerrainBase_morning"@) == Some("Ground_Grass_Texture_3.png"@)) by {
        assert("e2dTerrainBase"@.len() != "e2dTerrainBase_morning"@.len());
        assert("e2dTerrainBase_02"@.len() != "e2dTerrainBase_morning"@.len());
        assert("e2dTerrainBase_04"@.len() != "e2dTerrainBase_morning"@.len());
        assert("e2dTerrainBase_05_night"@.len() != "e2dTerrainBase_morning"@.len());
        assert("e2dTerrainBase_Halloween"@.len() != "e2dTerrainBase_morning"@.len());
        assert("e2dTerrainBase_MM_Ice"@.len() != "e2dTerrainBase_morning"@.len());
    }
    assert(terrain_splat0("e2dTerrainBase_MM_rock"@) == Some("Ground_Grass_Maya_Texture.png"@)) by {
        assert("e2dTerrainBase"@.len() != "e2dTerrainBase_MM_rock"@.len());
        assert("e2dTerrainBase_02"@.len() != "e2dTerrainBase_MM_rock"@.len());
        assert("e2dTerrainBase_04"@.len() != "e2dTerrainBase_MM_rock"@.len());
        assert("e2dTerrainBase_05_night"@.len() != "e2dTerrainBase_MM_rock"@.len());
        assert("e2dTerrainBase_Halloween"@.len() != "e2dTerrainBase_MM_rock"@.len());
        assert("e2dTerrainBase_MM_Ice"@.len() != "e2dTerrainBase_MM_rock"@.len());
        assert("e2dTerrainBase_morning"@[15] != "e2dTerrainBase_MM_rock"@[15]);
    }
    assert(terrain_splat0("e2dTerrainBase_MM_sand"@) == Some("Ground_Grass_Maya_Texture.png"@)) by {
        assert("e2dTerrainBase"@.len() != "e2dTerrainBase_MM_sand"@.len());
        assert("e2dTerrainBase_02"@.len() != "e2dTerrainBase_MM_sand"@.len());
        assert("e2dTerrainBase_04"@.len() != "e2dTerrainBase_MM_sand"@.len());
        assert("e2dTerrainBase_05_night"@.len() != "e2dTerrainBase_MM_sand"@.len());
        assert("e2dTerrainBase_Halloween"@.len() != "e2dTerrainBase_MM_sand"@.len());
        assert("e2dTerrainBase_MM_Ice"@.len() != "e2dTerrainBase_MM_sand"@.len());
        assert("e2dTerrainBase_morning"@[15] != "e2dTerrainBase_MM_sand"@[15]);
        assert("e2dTerrainBase_MM_rock"@[18] != "e2dTerrainBase_MM_sand"@[18]);
    }
    assert(terrain_splat0("e2dTerrainBase_MM_TempleDarkRock"@) == Some("Ground_Grass_Maya_Texture.png"@)) by {
        assert("e2dTerrainBase"@.len() != "e2dTerrainBase_MM_TempleDarkRock"@.len());
        assert("e2dTerrainBase_02"@.len() != "e2dTerrainBase_MM_TempleDarkRock"@.len());
        assert("e2dTerrainBase_04"@.len() != "e2dTerrainBase_MM_TempleDarkRock"@.len());
        assert("e2dTerrainBase_05_night"@.len() != "e2dTerrainBase_MM_TempleDarkRock"@.len());
        assert("e2dTerrainBase_Halloween"@.len() != "e2dTerrainBase_MM_TempleDarkRock"@.len());
        assert("e2dTerrainBase_MM_Ice"@.len() != "e2dTerrainBase_MM_TempleDarkRock"@.len());
        assert("e2dTerrainBase_morning"@.len() != "e2dTerrainBase_MM_TempleDarkRock"@.len());
        assert("e2dTerrainBase_MM_rock"@.len() != "e2dTerrainBase_MM_TempleDarkRock"@.len());
        assert("e2dTerrainBase_MM_sand"@.len() != "e2dTerrainBase_MM_TempleDarkRock"@.len());
    }
    assert(terrain_splat0("e2dTerrainBase_MM_caveSand"@) == Some("Ground_Grass_Maya_Texture.png"@)) by {
        assert("e2dTerrainBase"@.len() != "e2dTerrainBase_MM_caveSand"@.len());
        assert("e2dTerrainBase_02"@.len() != "e2dTerrainBase_MM_caveSand"@.len());
        assert("e2dTerrainBase_04"@.len() != "e2dTerrainBase_MM_caveSand"@.len());
        assert("e2dTerrainBase_05_night"@.len() != "e2dTerrainBase_MM_caveSand"@.len());
        assert("e2dTerrainBase_Halloween"@.len() != "e2dTerrainBase_MM_caveSand"@.len());
        assert("e2dTerrainBase_MM_Ice"@.len() != "e2dTerrainBase_MM_caveSand"@.len());
        assert("e2dTerrainBase_morning"@.len() != "e2dTerrainBase_MM_caveSand"@.len());
        assert("e2dTerrainBase_MM_rock"@.len() != "e2dTerrainBase_MM_caveSand"@.len());
        assert("e2dTerrainBase_MM_sand"@.len() != "e2dTerrainBase_MM_caveSand"@.len());
        assert("e2dTerrainBase_MM_TempleDarkRock"@.len() != "e2dTerrainBase_MM_caveSand"@.len());
    }
    assert(terrain_splat0("e2dTerrainDark_MM"@) == Some("Ground_Grass_Texture.png"@)) by {
        assert("e2dTerrainBase"@.len() != "e2dTerrainDark_MM"@.len());
        assert("e2dTerrainBase_02"@[10] != "e2dTerrainDark_MM"@[10]);
        assert("e2dTerrainBase_04"@[10] != "e2dTerrainDark_MM"@[10]);
        assert("e2dTerrainBase_05_night"@.len() != "e2dTerrainDark_MM"@.len());
        assert("e2dTerrainBase_Halloween"@.len() != "e2dTerrainDark_MM"@.len());
        assert("e2dTerrainBase_MM_Ice"@.len() != "e2dTerrainDark_MM"@.len());
        assert("e2dTerrainBase_morning"@.len() != "e2dTerrainDark_MM"@.len());
        assert("e2dTerrainBase_MM_rock"@.len() != "e2dTerrainDark_MM"@.len());
        assert("e2dTerrainBase_MM_sand"@.len() != "e2dTerrainDark_MM"@.len());
        assert("e2dTerrainBase_MM_TempleDarkRock"@.len() != "e2dTerrainDark_MM"@.len());
        assert("e2dTerrainBase_MM_caveSand"@.len() != "e2dTerrainDark_MM"@.len());
    }
    assert(terrain_splat0("e2dTerrainDark_MM_CaveSand"@) == Some("Ground_Grass_Texture.png"@)) by {
        assert("e2dTerrainBase"@.len() != "e2dTerrainDark_MM_CaveSand"@.len());
        assert("e2dTerrainBase_02"@.len() != "e2dTerrainDark_MM_CaveSand"@.len());
        assert("e2dTerrainBase_04"@.len() != "e2dTerrainDark_MM_CaveSand"@.len());
        assert("e2dTerrainBase_05_night"@.len() != "e2dTerrainDark_MM_CaveSand"@.len());
        assert("e2dTerrainBase_Halloween"@.len() != "e2dTerrainDark_MM_CaveSand"@.len());
        assert("e2dTerrainBase_MM_Ice"@.len() != "e2dTerrainDark_MM_CaveSand"@.len());
        assert("e2dTerrainBase_morning"@.len() != "e2dTerrainDark_MM_CaveSand"@.len());
        assert("e2dTerrainBase_MM_rock"@.len() != "e2dTerrainDark_MM_CaveSand"@.len());
        assert("e2dTerrainBase_MM_sand"@.len() != "e2dTerrainDark_MM_CaveSand"@.len());
        assert("e2dTerrainBase_MM_TempleDarkRock"@.len() != "e2dTerrainDark_MM_CaveSand"@.len());
        assert("e2dTerrainBase_MM_caveSand"@[10] != "e2dTerrainDark_MM_CaveSand"@[10]);
        assert("e2dTerrainDark_MM"@.len() != "e2dTerrainDark_MM_CaveSand"@.len());
    }
    assert(terrain_splat0("e2dTerrainDark_MM_rock"@) == Some("Border_Maya_Cave.png"@)) by {
        assert("e2dTerrainBase"@.len() != "e2dTerrainDark_MM_rock"@.len());
        assert("e2dTerrainBase_02"@.len() != "e2dTerrainDark_MM_rock"@.len());
        assert("e2dTerrainBase_04"@.len() != "e2dTerrainDark_MM_rock"@.len());
        assert("e2dTerrainBase_05_night"@.len() != "e2dTerrainDark_MM_rock"@.len());
        assert("e2dTerrainBase_Halloween"@.len() != "e2dTerrainDark_MM_rock"@.len());
        assert("e2dTerrainBase_MM_Ice"@.len() != "e2dTerrainDark_MM_rock"@.len());
        assert("e2dTerrainBase_morning"@[10] != "e2dTerrainDark_MM_rock"@[10]);
        assert("e2dTerrainBase_MM_rock"@[10] != "e2dTerrainDark_MM_rock"@[10]);
        assert("e2dTerrainBase_MM_sand"@[10] != "e2dTerrainDark_MM_rock"@[10]);
        assert("e2dTerrainBase_MM_TempleDarkRock"@.len() != "e2dTerrainDark_MM_rock"@.len());
        assert("e2dTerrainBase_MM_caveSand"@.len() != "e2dTerrainDark_MM_rock"@.len());
        assert("e2dTerrainDark_MM"@.len() != "e2dTerrainDark_MM_rock"@.len());
        assert("e2dTerrainDark_MM_CaveSand"@.len() != "e2dTerrainDark_MM_rock"@.len());
    }
}

/// The Splat1 (outline) texture of each terrain prefab, as the game's prefabs give it.
pub proof fn lemma_terrain_outline_textures()
    ensures
        terrain_splat1("e2dTerrainBase"@) == Some("Ground_Rocks_Outline_Texture.png"@),
        terrain_splat1("e2dTerrainBase_02"@) == Some("Ground_Rocks_Outline_Texture_02.png"@),
        terrain_splat1("e2dTerrainBase_04"@) == Some("Ground_Rocks_Outline_Texture_04.png"@),
        terrain_splat1("e2dTerrainBase_05_night"@) == Some("Ground_Rocks_Outline_Texture_03.png"@),
        terrain_splat1("e2dTerrainBase_Halloween"@) == Some("Ground_Halloween_Outline_Texture.png"@),
        terrain_splat1("e2dTerrainBase_MM_Ice"@) == Some("Ground_Ice_Outline.png"@),
        terrain_splat1("e2dTerrainBase_morning"@) == Some("Ground_Rocks_Outline_Texture_06.png"@),
        terrain_splat1("e2dTerrainBase_MM_rock"@) == Some("Border.png"@),
        terrain_splat1("e2dTerrainBase_MM_sand"@) == Some("Border.png"@),
        terrain_splat1("e2dTerrainBase_MM_TempleDarkRock"@) == Some("Border_Maya_Cave.png"@),
        terrain_splat1("e2dTerrainBase_MM_caveSand"@) == Some("Border_Maya_Cave.png"@),
        terrain_splat1("e2dTerrainDark_02"@) == Some("Ground_Rocks_Outline_Texture.png"@),
        terrain_splat1("e2dTerrainDark_03"@) == Some("Ground_Rocks_Outline_Texture_03.png"@),
        terrain_splat1("e2dTerrainDark_05_night(150)"@) == Some("Ground_Rocks_Outline_Texture_04.png"@),
        terrain_splat1("e2dTerrainDark_MM"@) == Some("Border_Maya_Cave.png"@),
        terrain_splat1("e2dTerrainDark_MM_CaveSand"@) == Some("Border_Maya_Cave.png"@),
        terrain_splat1("e2dTerrainDark_MM_rock"@) == Some("Border.png"@),
        terrain_splat1("e2dTerrainDark_MM_TempleDarkRock"@) == Some("Border_Maya_Cave.png"@),
{
    reveal_strlit("e2dTerrainBase");
    reveal_strlit("e2dTerrainBase_02");
    reveal_strlit("e2dTerrainBase_04");
    reveal_strlit("e2dTerrainBase_05_night");
    reveal_strlit("e2dTerrainBase_Halloween");
    reveal_strlit("e2dTerrainBase_MM_Ice");
    reveal_strlit("e2dTerrainBase_MM_TempleDarkRock");
    reveal_strlit("e2dTerrainBase_MM_caveSand");
    reveal_strlit("e2dTerrainBase_MM_rock");
    reveal_strlit("e2dTerrainBase_MM_sand");
    reveal_strlit("e2dTerrainBase_morning");
    reveal_strlit("e2dTerrainDark_02");
    reveal_strlit("e2dTerrainDark_03");
    reveal_strlit("e2dTerrainDark_05_night(150)");
    reveal_strlit("e2dTerrainDark_MM");
    reveal_strlit("e2dTerrainDark_MM_CaveSand");
    reveal_strlit("e2dTerrainDark_MM_TempleDarkRock");
    reveal_strlit("e2dTerrainDark_MM_rock");
    assert(terrain_splat1("e2dTerrainBase"@) == Some("Ground_Rocks_Outline_Texture.png"@)) by {
    }
    assert(terrain_splat1("e2dTerrainBase_02"@) == Some("Ground_Rocks_Outline_Texture_02.png"@)) by {
        assert("e2dTerrainBase"@.len() != "e2dTerrainBase_02"@.len());
    }
    assert(terrain_splat1("e2dTerrainBase_04"@) == Some("Ground_Rocks_Outline_Texture_04.png"@)) by {
        assert("e2dTerrainBase"@.len() != "e2dTerrainBase_04"@.len());
        assert("e2dTerrainBase_02"@[16] != "e2dTerrainBase_04"@[16]);
    }
    assert(terrain_splat1("e2dTerrainBase_05_night"@) == Some("Ground_Rocks_Outline_Texture_03.png"@)) by {
        assert("e2dTerrainBase"@.len() != "e2dTerrainBase_05_night"@.len());
        assert("e2dTerrainBase_02"@.len() != "e2dTerrainBase_05_night"@.len());
        assert("e2dTerrainBase_04"@.len() != "e2dTerrainBase_05_night"@.len());
    }
    assert(terrain_splat1("e2dTerrainBase_Halloween"@) == Some("Ground_Halloween_Outline_Texture.png"@)) by {
        assert("e2dTerrainBase"@.len() != "e2dTerrainBase_Halloween"@.len());
        assert("e2dTerrainBase_02"@.len() != "e2dTerrainBase_Halloween"@.len());
        assert("e2dTerrainBase_04"@.len() != "e2dTerrainBase_Halloween"@.len());
        assert("e2dTerrainBase_05_night"@.len() != "e2dTerrainBase_Halloween"@.len());
    }
    assert(terrain_splat1("e2dTerrainBase_MM_Ice"@) == Some("Ground_Ice_Outline.png"@)) by {
        assert("e2dTerrainBase"@.len() != "e2dTerrainBase_MM_Ice"@.len());
        assert("e2dTerrainBase_02"@.len() != "e2dTerrainBase_MM_Ice"@.len());
        assert("e2dTerrainBase_04"@.len() != "e2dTerrainBase_MM_Ice"@.len());
        assert("e2dTerrainBase_05_night"@.len() != "e2dTerrainBase_MM_Ice"@.len());
        assert("e2dTerrainBase_Halloween"@.len() != "e2dTerrainBase_MM_Ice"@.len());
    }
    assert(terrain_splat1("e2dTerrainBase_morning"@) == Some("Ground_Rocks_Outline_Texture_06.png"@)) by {
        assert("e2dTerrainBase"@.len() != "e2dTerrainBase_morning"@.len());
        assert("e2dTerrainBase_02"@.len() != "e2dTerrainBase_morning"@.len());
        assert("e2dTerrainBase_04"@.len() != "e2dTerrainBase_morning"@.len());
        assert("e2dTerrainBase_05_night"@.len() != "e2dTerrainBase_morning"@.len());
        assert("e2dTerrainBase_Halloween"@.len() != "e2dTerrainBase_morning"@.len());
        assert("e2dTerrainBase_MM_Ice"@.len() != "e2dTerrainBase_morning"@.len());
    }
    assert(terrain_splat1("e2dTerrainBase_MM_rock"@) == Some("Border.png"@)) by {
        assert("e2dTerrainBase"@.len() != "e2dTerrainBase_MM_rock"@.len());
        assert("e2dTerrainBase_02"@.len() != "e2dTerrainBase_MM_rock"@.len());
        assert("e2dTerrainBase_04"@.len() != "e2dTerrainBase_MM_rock"@.len());
        assert("e2dTerrainBase_05_night"@.len() != "e2dTerrainBase_MM_rock"@.len());
        assert("e2dTerrainBase_Halloween"@.len() != "e2dTerrainBase_MM_rock"@.len());
        assert("e2dTerrainBase_MM_Ice"@.len() != "e2dTerrainBase_MM_rock"@.len());
        assert("e2dTerrainBase_morning"@[15] != "e2dTerrainBase_MM_rock"@[15]);
    }
    assert(terrain_splat1("e2dTerrainBase_MM_sand"@) == Some("Border.png"@)) by {
        assert("e2dTerrainBase"@.len() != "e2dTerrainBase_MM_sand"@.len());
        assert("e2dTerrainBase_02"@.len() != "e2dTerrainBase_MM_sand"@.len());
        assert("e2dTerrainBase_04"@.len() != "e2dTerrainBase_MM_sand"@.len());
        assert("e2dTerrainBase_05_night"@.len() != "e2dTerrainBase_MM_sand"@.len());
        assert("e2dTerrainBase_Halloween"@.len() != "e2dTerrainBase_MM_sand"@.len());
        assert("e2dTerrainBase_MM_Ice"@.len() != "e2dTerrainBase_MM_sand"@.len());
        assert("e2dTerrainBase_morning"@[15] != "e2dTerrainBase_MM_sand"@[15]);
        assert("e2dTerrainBase_MM_rock"@[18] != "e2dTerrainBase_MM_sand"@[18]);
    }
    assert(terrain_splat1("e2dTerrainBase_MM_TempleDarkRock"@) == Some("Border_Maya_Cave.png"@)) by {
        assert("e2dTerrainBase"@.len() != "e2dTerrainBase_MM_TempleDarkRock"@.len());
        assert("e2dTerrainBase_02"@.len() != "e2dTerrainBase_MM_TempleDarkRock"@.len());
        assert("e2dTerrainBase_04"@.len() != "e2dTerrainBase_MM_TempleDarkRock"@.len());
        assert("e2dTerrainBase_05_night"@.len() != "e2dTerrainBase_MM_TempleDarkRock"@.len());
        assert("e2dTerrainBase_Halloween"@.len() != "e2dTerrainBase_MM_TempleDarkRock"@.len());
        assert("e2dTerrainBase_MM_Ice"@.len() != "e2dTerrainBase_MM_TempleDarkRock"@.len());
        assert("e2dTerrainBase_morning"@.len() != "e2dTerrainBase_MM_TempleDarkRock"@.len());
        assert("e2dTerrainBase_MM_rock"@.len() != "e2dTerrainBase_MM_TempleDarkRock"@.len());
        assert("e2dTerrainBase_MM_sand"@.len() != "e2dTerrainBase_MM_TempleDarkRock"@.len());
    }
    assert(terrain_splat1("e2dTerrainBase_MM_caveSand"@) == Some("Border_Maya_Cave.png"@)) by {
        assert("e2dTerrainBase"@.len() != "e2dTerrainBase_MM_caveSand"@.len());
        assert("e2dTerrainBase_02"@.len() != "e2dTerrainBase_MM_caveSand"@.len());
        assert("e2dTerrainBase_04"@.len() != "e2dTerrainBase_MM_caveSand"@.len());
        assert("e2dTerrainBase_05_night"@.len() != "e2dTerrainBase_MM_caveSand"@.len());
        assert("e2dTerrainBase_Halloween"@.len() != "e2dTerrainBase_MM_caveSand"@.len());
        assert("e2dTerrainBase_MM_Ice"@.len() != "e2dTerrainBase_MM_caveSand"@.len());
        assert("e2dTerrainBase_morning"@.len() != "e2dTerrainBase_MM_caveSand"@.len());
        assert("e2dTerrainBase_MM_rock"@.len() != "e2dTerrainBase_MM_caveSand"@.len());
        assert("e2dTerrainBase_MM_sand"@.len() != "e2dTerrainBase_MM_caveSand"@.len());
        assert("e2dTerrainBase_MM_TempleDarkRock"@.len() != "e2dTerrainBase_MM_caveSand"@.len());
    }
    assert(terrain_splat1("e2dTerrainDark_02"@) == Some("Ground_Rocks_Outline_Texture.png"@)) by {
        assert("e2dTerrainBase"@.len() != "e2dTerrainDark_02"@.len());
        assert("e2dTerrainBase_02"@[10] != "e2dTerrainDark_02"@[10]);
        assert("e2dTerrainBase_04"@[10] != "e2dTerrainDark_02"@[10]);
        assert("e2dTerrainBase_05_night"@.len() != "e2dTerrainDark_02"@.len());
        assert("e2dTerrainBase_Halloween"@.len() != "e2dTerrainDark_02"@.len());
        assert("e2dTerrainBase_MM_Ice"@.len() != "e2dTerrainDark_02"@.len());
        assert("e2dTerrainBase_morning"@.len() != "e2dTerrainDark_02"@.len());
        assert("e2dTerrainBase_MM_rock"@.len() != "e2dTerrainDark_02"@.len());
        assert("e2dTerrainBase_MM_sand"@.len() != "e2dTerrainDark_02"@.len());
        assert("e2dTerrainBase_MM_TempleDarkRock"@.len() != "e2dTerrainDark_02"@.len());
        assert("e2dTerrainBase_MM_caveSand"@.len() != "e2dTerrainDark_02"@.len());
    }
    assert(terrain_splat1("e2dTerrainDark_03"@) == Some("Ground_Rocks_Outline_Texture_03.png"@)) by {
        assert("e2dTerrainBase"@.len() != "e2dTerrainDark_03"@.len());
        assert("e2dTerrainBase_02"@[10] != "e2dTerrainDark_03"@[10]);
        assert("e2dTerrainBase_04"@[10] != "e2dTerrainDark_03"@[10]);
        assert("e2dTerrainBase_05_night"@.len() != "e2dTerrainDark_03"@.len());
        assert("e2dTerrainBase_Halloween"@.len() != "e2dTerrainDark_03"@.len());
        assert("e2dTerrainBase_MM_Ice"@.len() != "e2dTerrainDark_03"@.len());
        assert("e2dTerrainBase_morning"@.len() != "e2dTerrainDark_03"@.len());
        assert("e2dTerrainBase_MM_rock"@.len() != "e2dTerrainDark_03"@.len());
        assert("e2dTerrainBase_MM_sand"@.len() != "e2dTerrainDark_03"@.len());
        assert("e2dTerrainBase_MM_TempleDarkRock"@.len() != "e2dTerrainDark_03"@.len());
        assert("e2dTerrainBase_MM_caveSand"@.len() != "e2dTerrainDark_03"@.len());
        assert("e2dTerrainDark_02"@[16] != "e2dTerrainDark_03"@[16]);
    }
    assert(terrain_splat1("e2dTerrainDark_05_night(150)"@) == Some("Ground_Rocks_Outline_Texture_04.png"@)) by {
        assert("e2dTerrainBase"@.len() != "e2dTerrainDark_05_night(150)"@.len());
        assert("e2dTerrainBase_02"@.len() != "e2dTerrainDark_05_night(150)"@.len());
        assert("e2dTerrainBase_04"@.len() != "e2dTerrainDark_05_night(150)"@.len());
        assert("e2dTerrainBase_05_night"@.len() != "e2dTerrainDark_05_night(150)"@.len());
        assert("e2dTerrainBase_Halloween"@.len() != "e2dTerrainDark_05_night(150)"@.len());
        assert("e2dTerrainBase_MM_Ice"@.len() != "e2dTerrainDark_05_night(150)"@.len());
        assert("e2dTerrainBase_morning"@.len() != "e2dTerrainDark_05_night(150)"@.len());
        assert("e2dTerrainBase_MM_rock"@.len() != "e2dTerrainDark_05_night(150)"@.len());
        assert("e2dTerrainBase_MM_sand"@.len() != "e2dTerrainDark_05_night(150)"@.len());
        assert("e2dTerrainBase_MM_TempleDarkRock"@.len() != "e2dTerrainDark_05_night(150)"@.len());
        assert("e2dTerrainBase_MM_caveSand"@.len() != "e2dTerrainDark_05_night(150)"@.len());
        assert("e2dTerrainDark_02"@.len() != "e2dTerrainDark_05_night(150)"@.len());
        assert("e2dTerrainDark_03"@.len() != "e2dTerrainDark_05_night(150)"@.len());
    }
    assert(terrain_splat1("e2dTerrainDark_MM"@) == Some("Border_Maya_Cave.png"@)) by {
        assert("e2dTerrainBase"@.len() != "e2dTerrainDark_MM"@.len());
        assert("e2dTerrainBase_02"@[10] != "e2dTerrainDark_MM"@[10]);
        assert("e2dTerrainBase_04"@[10] != "e2dTerrainDark_MM"@[10]);
        assert("e2dTerrainBase_05_night"@.len() != "e2dTerrainDark_MM"@.len());
        assert("e2dTerrainBase_Halloween"@.len() != "e2dTerrainDark_MM"@.len());
        assert("e2dTerrainBase_MM_Ice"@.len() != "e2dTerrainDark_MM"@.len());
        assert("e2dTerrainBase_morning"@.len() != "e2dTerrainDark_MM"@.len());
        assert("e2dTerrainBase_MM_rock"@.len() != "e2dTerrainDark_MM"@.len());
        assert("e2dTerrainBase_MM_sand"@.len() != "e2dTerrainDark_MM"@.len());
        assert("e2dTerrainBase_MM_TempleDarkRock"@.len() != "e2dTerrainDark_MM"@.len());
        assert("e2dTerrainBase_MM_caveSand"@.len() != "e2dTerrainDark_MM"@.len());
        assert("e2dTerrainDark_02"@[15] != "e2dTerrainDark_MM"@[15]);
        assert("e2dTerrainDark_03"@[15] != "e2dTerrainDark_MM"@[15]);
        assert("e2dTerrainDark_05_night(150)"@.len() != "e2dTerrainDark_MM"@.len());
    }
    assert(terrain_splat1("e2dTerrainDark_MM_CaveSand"@) == Some("Border_Maya_Cave.png"@)) by {
        assert("e2dTerrainBase"@.len() != "e2dTerrainDark_MM_CaveSand"@.len());
        assert("e2dTerrainBase_02"@.len() != "e2dTerrainDark_MM_CaveSand"@.len());
        assert("e2dTerrainBase_04"@.len() != "e2dTerrainDark_MM_CaveSand"@.len());
        assert("e2dTerrainBase_05_night"@.len() != "e2dTerrainDark_MM_CaveSand"@.len());
        assert("e2dTerrainBase_Halloween"@.len() != "e2dTerrainDark_MM_CaveSand"@.len());
        assert("e2dTerrainBase_MM_Ice"@.len() != "e2dTerrainDark_MM_CaveSand"@.len());
        assert("e2dTerrainBase_morning"@.len() != "e2dTerrainDark_MM_CaveSand"@.len());
        assert("e2dTerrainBase_MM_rock"@.len() != "e2dTerrainDark_MM_CaveSand"@.len());
        assert("e2dTerrainBase_MM_sand"@.len() != "e2dTerrainDark_MM_CaveSand"@.len());
        assert("e2dTerrainBase_MM_TempleDarkRock"@.len() != "e2dTerrainDark_MM_CaveSand"@.len());
        assert("e2dTerrainBase_MM_caveSand"@[10] != "e2dTerrainDark_MM_CaveSand"@[10]);
        assert("e2dTerrainDark_02"@.len() != "e2dTerrainDark_MM_CaveSand"@.len());
        assert("e2dTerrainDark_03"@.len() != "e2dTerrainDark_MM_CaveSand"@.len());
        assert("e2dTerrainDark_05_night(150)"@.len() != "e2dTerrainDark_MM_CaveSand"@.len());
        assert("e2dTerrainDark_MM"@.len() != "e2dTerrainDark_MM_CaveSand"@.len());
    }
    assert(terrain_splat1("e2dTerrainDark_MM_rock"@) == Some("Border.png"@)) by {
        assert("e2dTerrainBase"@.len() != "e2dTerrainDark_MM_rock"@.len());
        assert("e2dTerrainBase_02"@.len() != "e2dTerrainDark_MM_rock"@.len());
        assert("e2dTerrainBase_04"@.len() != "e2dTerrainDark_MM_rock"@.len());
        assert("e2dTerrainBase_05_night"@.len() != "e2dTerrainDark_MM_rock"@.len());
        assert("e2dTerrainBase_Halloween"@.len() != "e2dTerrainDark_MM_rock"@.len());
        assert("e2dTerrainBase_MM_Ice"@.len() != "e2dTerrainDark_MM_rock"@.len());
        assert("e2dTerrainBase_morning"@[10] != "e2dTerrainDark_MM_rock"@[10]);
        assert("e2dTerrainBase_MM_rock"@[10] != "e2dTerrainDark_MM_rock"@[10]);
        assert("e2dTerrainBase_MM_sand"@[10] != "e2dTerrainDark_MM_rock"@[10]);
        assert("e2dTerrainBase_MM_TempleDarkRock"@.len() != "e2dTerrainDark_MM_rock"@.len());
        assert("e2dTerrainBase_MM_caveSand"@.len() != "e2dTerrainDark_MM_rock"@.len());
        assert("e2dTerrainDark_02"@.len() != "e2dTerrainDark_MM_rock"@.len());
        assert("e2dTerrainDark_03"@.len() != "e2dTerrainDark_MM_rock"@.len());
        assert("e2dTerrainDark_05_night(150)"@.len() != "e2dTerrainDark_MM_rock"@.len());
        assert("e2dTerrainDark_MM"@.len() != "e2dTerrainDark_MM_rock"@.len());
        assert("e2dTerrainDark_MM_CaveSand"@.len() != "e2dTerrainDark_MM_rock"@.len());
    }
    assert(terrain_splat1("e2dTerrainDark_MM_TempleDarkRock"@) == Some("Border_Maya_Cave.png"@)) by {
        assert("e2dTerrainBase"@.len() != "e2dTerrainDark_MM_TempleDarkRock"@.len());
        assert("e2dTerrainBase_02"@.len() != "e2dTerrainDark_MM_TempleDarkRock"@.len());
        assert("e2dTerrainBase_04"@.len() != "e2dTerrainDark_MM_TempleDarkRock"@.len());
        assert("e2dTerrainBase_05_night"@.len() != "e2dTerrainDark_MM_TempleDarkRock"@.len());
        assert("e2dTerrainBase_Halloween"@.len() != "e2dTerrainDark_MM_TempleDarkRock"@.len());
        assert("e2dTerrainBase_MM_Ice"@.len() != "e2dTerrainDark_MM_TempleDarkRock"@.len());
        assert("e2dTerrainBase_morning"@.len() != "e2dTerrainDark_MM_TempleDarkRock"@.len());
        assert("e2dTerrainBase_MM_rock"@.len() != "e2dTerrainDark_MM_TempleDarkRock"@.len());
        assert("e2dTerrainBase_MM_sand"@.len() != "e2dTerrainDark_MM_TempleDarkRock"@.len());
        assert("e2dTerrainBase_MM_TempleDarkRock"@[10] != "e2dTerrainDark_MM_TempleDarkRock"@[10]);
        assert("e2dTerrainBase_MM_caveSand"@.len() != "e2dTerrainDark_MM_TempleDarkRock"@.len());
        assert("e2dTerrainDark_02"@.len() != "e2dTerrainDark_MM_TempleDarkRock"@.len());
        assert("e2dTerrainDark_03"@.len() != "e2dTerrainDark_MM_TempleDarkRock"@.len());
        assert("e2dTerrainDark_05_night(150)"@.len() != "e2dTerrainDark_MM_TempleDarkRock"@.len());
        assert("e2dTerrainDark_MM"@.len() != "e2dTerrainDark_MM_TempleDarkRock"@.len());
        assert("e2dTerrainDark_MM_CaveSand"@.len() != "e2dTerrainDark_MM_TempleDarkRock"@.len());
        assert("e2dTerrainDark_MM_rock"@.len() != "e2dTerrainDark_MM_TempleDarkRock"@.len());
    }
}

/// The base prefab of each dark terrain variant, as the game's prefabs give it.
pub proof fn lemma_dark_terrain_bases()
    ensures
        dark_terrain("e2dTerrainDark"@) == Some("e2dTerrainBase"@),
        dark_terrain("e2dTerrainDark_02"@) == Some("e2dTerrainBase_02"@),
        dark_terrain("e2dTerrainDark_03"@) == Some("e2dTerrainBase_02"@),
        dark_terrain("e2dTerrainDark_05_night(150)"@) == Some("e2dTerrainBase_05_night"@),
        dark_terrain("e2dTerrainDark_MM"@) == Some("e2dTerrainBase_MM_sand"@),
        dark_terrain("e2dTerrainDark_MM_CaveSand"@) == Some("e2dTerrainBase_MM_caveSand"@),
        dark_terrain("e2dTerrainDark_MM_TempleDarkRock"@) == Some("e2dTerrainBase_MM_TempleDarkRock"@),
        dark_terrain("e2dTerrainDark_MM_rock"@) == Some("e2dTerrainBase_MM_rock"@),
        dark_terrain("e2dTerrainDark Halloween"@) == Some("e2dTerrainBase_Halloween"@),
        dark_terrain("e2dTerrainDark morning"@) == Some("e2dTerrainBase_morning"@),
        dark_terrain("e2dTerrainDark_morning"@) == Some("e2dTerrainBase_morning"@),
        dark_terrain("e2dTerrainDark cave"@) == Some("e2dTerrainBase"@),
        dark_terrain("e2dTerrainDark_cave"@) == Some("e2dTerrainBase"@),
{
    reveal_strlit("e2dTerrainDark");
    reveal_strlit("e2dTerrainDark Halloween");
    reveal_strlit("e2dTerrainDark cave");
    reveal_strlit("e2dTerrainDark morning");
    reveal_strlit("e2dTerrainDark_02");
    reveal_strlit("e2dTerrainDark_03");
    reveal_strlit("e2dTerrainDark_05_night(150)");
    reveal_strlit("e2dTerrainDark_MM");
    reveal_strlit("e2dTerrainDark_MM_CaveSand");
    reveal_strlit("e2dTerrainDark_MM_TempleDarkRock");
    reveal_strlit("e2dTerrainDark_MM_rock");
    reveal_strlit("e2dTerrainDark_cave");
    reveal_strlit("e2dTerrainDark_morning");
    assert(dark_terrain("e2dTerrainDark"@) == Some("e2dTerrainBase"@)) by {
    }
    assert(dark_terrain("e2dTerrainDark_02"@) == Some("e2dTerrainBase_02"@)) by {
        assert("e2dTerrainDark"@.len() != "e2dTerrainDark_02"@.len());
    }
    assert(dark_terrain("e2dTerrainDark_03"@) == Some("e2dTerrainBase_02"@)) by {
        assert("e2dTerrainDark"@.len() != "e2dTerrainDark_03"@.len());
        assert("e2dTerrainDark_02"@[16] != "e2dTerrainDark_03"@[16]);
    }
    assert(dark_terrain("e2dTerrainDark_05_night(150)"@) == Some("e2dTerrainBase_05_night"@)) by {
        assert("e2dTerrainDark"@.len() != "e2dTerrainDark_05_night(150)"@.len());
        assert("e2dTerrainDark_02"@.len() != "e2dTerrainDark_05_night(150)"@.len());
        assert("e2dTerrainDark_03"@.len() != "e2dTerrainDark_05_night(150)"@.len());
    }
    assert(dark_terrain("e2dTerrainDark_MM"@) == Some("e2dTerrainBase_MM_sand"@)) by {
        assert("e2dTerrainDark"@.len() != "e2dTerrainDark_MM"@.len());
        assert("e2dTerrainDark_02"@[15] != "e2dTerrainDark_MM"@[15]);
        assert("e2dTerrainDark_03"@[15] != "e2dTerrainDark_MM"@[15]);
        assert("e2dTerrainDark_05_night(150)"@.len() != "e2dTerrainDark_MM"@.len());
    }
    assert(dark_terrain("e2dTerrainDark_MM_CaveSand"@) == Some("e2dTerrainBase_MM_caveSand"@)) by {
        assert("e2dTerrainDark"@.len() != "e2dTerrainDark_MM_CaveSand"@.len());
        assert("e2dTerrainDark_02"@.len() != "e2dTerrainDark_MM_CaveSand"@.len());
        assert("e2dTerrainDark_03"@.len() != "e2dTerrainDark_MM_CaveSand"@.len());
        assert("e2dTerrainDark_05_night(150)"@.len() != "e2dTerrainDark_MM_CaveSand"@.len());
        assert("e2dTerrainDark_MM"@.len() != "e2dTerrainDark_MM_CaveSand"@.len());
    }
    assert(dark_terrain("e2dTerrainDark_MM_TempleDarkRock"@) == Some("e2dTerrainBase_MM_TempleDarkRock"@)) by {
        assert("e2dTerrainDark"@.len() != "e2dTerrainDark_MM_TempleDarkRock"@.len());
        assert("e2dTerrainDark_02"@.len() != "e2dTerrainDark_MM_TempleDarkRock"@.len());
        assert("e2dTerrainDark_03"@.len() != "e2dTerrainDark_MM_TempleDarkRock"@.len());
        assert("e2dTerrainDark_05_night(150)"@.len() != "e2dTerrainDark_MM_TempleDarkRock"@.len());
        assert("e2dTerrainDark_MM"@.len() != "e2dTerrainDark_MM_TempleDarkRock"@.len());
        assert("e2dTerrainDark_MM_CaveSand"@.len() != "e2dTerrainDark_MM_TempleDarkRock"@.len());
    }
    assert(dark_terrain("e2dTerrainDark_MM_rock"@) == Some("e2dTerrainBase_MM_rock"@)) by {
        assert("e2dTerrainDark"@.len() != "e2dTerrainDark_MM_rock"@.len());
        assert("e2dTerrainDark_02"@.len() != "e2dTerrainDark_MM_rock"@.len());
        assert("e2dTerrainDark_03"@.len() != "e2dTerrainDark_MM_rock"@.len());
        assert("e2dTerrainDark_05_night(150)"@.len() != "e2dTerrainDark_MM_rock"@.len());
        assert("e2dTerrainDark_MM"@.len() != "e2dTerrainDark_MM_rock"@.len());
        assert("e2dTerrainDark_MM_CaveSand"@.len() != "e2dTerrainDark_MM_rock"@.len());
        assert("e2dTerrainDark_MM_TempleDarkRock"@.len() != "e2dTerrainDark_MM_rock"@.len());
    }
    assert(dark_terrain("e2dTerrainDark Halloween"@) == Some("e2dTerrainBase_Halloween"@)) by {
        assert("e2dTerrainDark"@.len() != "e2dTerrainDark Halloween"@.len());
        assert("e2dTerrainDark_02"@.len() != "e2dTerrainDark Halloween"@.len());
        assert("e2dTerrainDark_03"@.len() != "e2dTerrainDark Halloween"@.len());
        assert("e2dTerrainDark_05_night(150)"@.len() != "e2dTerrainDark Halloween"@.len());
        assert("e2dTerrainDark_MM"@.len() != "e2dTerrainDark Halloween"@.len());
        assert("e2dTerrainDark_MM_CaveSand"@.len() != "e2dTerrainDark Halloween"@.len());
        assert("e2dTerrainDark_MM_TempleDarkRock"@.len() != "e2dTerrainDark Halloween"@.len());
        assert("e2dTerrainDark_MM_rock"@.len() != "e2dTerrainDark Halloween"@.len());
    }
    assert(dark_terrain("e2dTerrainDark morning"@) == Some("e2dTerrainBase_morning"@)) by {
        assert("e2dTerrainDark"@.len() != "e2dTerrainDark morning"@.len());
        assert("e2dTerrainDark_02"@.len() != "e2dTerrainDark morning"@.len());
        assert("e2dTerrainDark_03"@.len() != "e2dTerrainDark morning"@.len());
        assert("e2dTerrainDark_05_night(150)"@.len() != "e2dTerrainDark morning"@.len());
        assert("e2dTerrainDark_MM"@.len() != "e2dTerrainDark morning"@.len());
        assert("e2dTerrainDark_MM_CaveSand"@.len() != "e2dTerrainDark morning"@.len());
        assert("e2dTerrainDark_MM_TempleDarkRock"@.len() != "e2dTerrainDark morning"@.len());
        assert("e2dTerrainDark_MM_rock"@[14] != "e2dTerrainDark morning"@[14]);
        assert("e2dTerrainDark Halloween"@.len() != "e2dTerrainDark morning"@.len());
    }
    assert(dark_terrain("e2dTerrainDark_morning"@) == Some("e2dTerrainBase_morning"@)) by {
        assert("e2dTerrainDark"@.len() != "e2dTerrainDark_morning"@.len());
        assert("e2dTerrainDark_02"@.len() != "e2dTerrainDark_morning"@.len());
        assert("e2dTerrainDark_03"@.len() != "e2dTerrainDark_morning"@.len());
        assert("e2dTerrainDark_05_night(150)"@.len() != "e2dTerrainDark_morning"@.len());
        assert("e2dTerrainDark_MM"@.len() != "e2dTerrainDark_morning"@.len());
        assert("e2dTerrainDark_MM_CaveSand"@.len() != "e2dTerrainDark_morning"@.len());
        assert("e2dTerrainDark_MM_TempleDarkRock"@.len() != "e2dTerrainDark_morning"@.len());
        assert("e2dTerrainDark_MM_rock"@[15] != "e2dTerrainDark_morning"@[15]);
        assert("e2dTerrainDark Halloween"@.len() != "e2dTerrainDark_morning"@.len());
        assert("e2dTerrainDark morning"@[14] != "e2dTerrainDark_morning"@[14]);
    }
    assert(dark_terrain("e2dTerrainDark cave"@) == Some("e2dTerrainBase"@)) by {
        assert("e2dTerrainDark"@.len() != "e2dTerrainDark cave"@.len());
        assert("e2dTerrainDark_02"@.len() != "e2dTerrainDark cave"@.len());
        assert("e2dTerrainDark_03"@.len() != "e2dTerrainDark cave"@.len());
        assert("e2dTerrainDark_05_night(150)"@.len() != "e2dTerrainDark cave"@.len());
        assert("e2dTerrainDark_MM"@.len() != "e2dTerrainDark cave"@.len());
        assert("e2dTerrainDark_MM_CaveSand"@.len() != "e2dTerrainDark cave"@.len());
        assert("e2dTerrainDark_MM_TempleDarkRock"@.len() != "e2dTerrainDark cave"@.len());
        assert("e2dTerrainDark_MM_rock"@.len() != "e2dTerrainDark cave"@.len());
        assert("e2dTerrainDark Halloween"@.len() != "e2dTerrainDark cave"@.len());
        assert("e2dTerrainDark morning"@.len() != "e2dTerrainDark cave"@.len());
        assert("e2dTerrainDark_morning"@.len() != "e2dTerrainDark cave"@.len());
    }
    assert(dark_terrain("e2dTerrainDark_cave"@) == Some("e2dTerrainBase"@)) by {
        assert("e2dTerrainDark"@.len() != "e2dTerrainDark_cave"@.len());
        assert("e2dTerrainDark_02"@.len() != "e2dTerrainDark_cave"@.len());
        assert("e2dTerrainDark_03"@.len() != "e2dTerrainDark_cave"@.len());
        assert("e2dTerrainDark_05_night(150)"@.len() != "e2dTerrainDark_cave"@.len());
        assert("e2dTerrainDark_MM"@.len() != "e2dTerrainDark_cave"@.len());
        assert("e2dTerrainDark_MM_CaveSand"@.len() != "e2dTerrainDark_cave"@.len());
        assert("e2dTerrainDark_MM_TempleDarkRock"@.len() != "e2dTerrainDark_cave"@.len());
        assert("e2dTerrainDark_MM_rock"@.len() != "e2dTerrainDark_cave"@.len());
        assert("e2dTerrainDark Halloween"@.len() != "e2dTerrainDark_cave"@.len());
        assert("e2dTerrainDark morning"@.len() != "e2dTerrainDark_cave"@.len());
        assert("e2dTerrainDark_morning"@.len() != "e2dTerrainDark_cave"@.len());
        assert("e2dTerrainDark cave"@[14] != "e2dTerrainDark_cave"@[14]);
    }
}

/// The Episode 6 outline of each Maya, ice and temple terrain key, as the game's prefabs give it.
pub proof fn lemma_episode6_outline_rule()
    ensures
        level_splat1_rule("e2dTerrainBase_MM_rock"@) == Some("Border.png"@),
        level_splat1_rule("e2dTerrainBase_MM_sand"@) == Some("Border.png"@),
        level_splat1_rule("e2dTerrainBase_MM_Ice"@) == Some("Ground_Ice_Outline.png"@),
        level_splat1_rule("e2dTerrainBase_MM_TempleDarkRock"@) == Some("Border_Maya_Cave.png"@),
        level_splat1_rule("e2dTerrainBase_MM_caveSand"@) == Some("Border_Maya_Cave.png"@),
        level_splat1_rule("e2dTerrainDark_MM"@) == Some("Border_Maya_Cave.png"@),
        level_splat1_rule("e2dTerrainDark_MM_CaveSand"@) == Some("Border_Maya_Cave.png"@),
        level_splat1_rule("e2dTerrainDark_MM_TempleDarkRock"@) == Some("Border_Maya_Cave.png"@),
        level_splat1_rule("e2dTerrainDark_MM_rock"@) == Some("Border.png"@),
{
    reveal_strlit("e2dTerrainBase_MM_Ice");
    reveal_strlit("e2dTerrainBase_MM_TempleDarkRock");
    reveal_strlit("e2dTerrainBase_MM_caveSand");
    reveal_strlit("e2dTerrainBase_MM_rock");
    reveal_strlit("e2dTerrainBase_MM_sand");
    reveal_strlit("e2dTerrainDark_MM");
    reveal_strlit("e2dTerrainDark_MM_CaveSand");
    reveal_strlit("e2dTerrainDark_MM_TempleDarkRock");
    reveal_strlit("e2dTerrainDark_MM_rock");
    assert(level_splat1_rule("e2dTerrainBase_MM_rock"@) == Some("Border.png"@)) by {
    }
    assert(level_splat1_rule("e2dTerrainBase_MM_sand"@) == Some("Border.png"@)) by {
        assert("e2dTerrainBase_MM_rock"@[18] != "e2dTerrainBase_MM_sand"@[18]);
    }
    assert(level_splat1_rule("e2dTerrainBase_MM_Ice"@) == Some("Ground_Ice_Outline.png"@)) by {
        assert("e2dTerrainBase_MM_rock"@.len() != "e2dTerrainBase_MM_Ice"@.len());
        assert("e2dTerrainBase_MM_sand"@.len() != "e2dTerrainBase_MM_Ice"@.len());
    }
    assert(level_splat1_rule("e2dTerrainBase_MM_TempleDarkRock"@) == Some("Border_Maya_Cave.png"@)) by {
        assert("e2dTerrainBase_MM_rock"@.len() != "e2dTerrainBase_MM_TempleDarkRock"@.len());
        assert("e2dTerrainBase_MM_sand"@.len() != "e2dTerrainBase_MM_TempleDarkRock"@.len());
        assert("e2dTerrainBase_MM_Ice"@.len() != "e2dTerrainBase_MM_TempleDarkRock"@.len());
    }
    assert(level_splat1_rule("e2dTerrainBase_MM_caveSand"@) == Some("Border_Maya_Cave.png"@)) by {
        assert("e2dTerrainBase_MM_rock"@.len() != "e2dTerrainBase_MM_caveSand"@.len());
        assert("e2dTerrainBase_MM_sand"@.len() != "e2dTerrainBase_MM_caveSand"@.len());
        assert("e2dTerrainBase_MM_Ice"@.len() != "e2dTerrainBase_MM_caveSand"@.len());
        assert("e2dTerrainBase_MM_TempleDarkRock"@.len() != "e2dTerrainBase_MM_caveSand"@.len());
    }
    assert(level_splat1_rule("e2dTerrainDark_MM"@) == Some("Border_Maya_Cave.png"@)) by {
        assert("e2dTerrainBase_MM_rock"@.len() != "e2dTerrainDark_MM"@.len());
        assert("e2dTerrainBase_MM_sand"@.len() != "e2dTerrainDark_MM"@.len());
        assert("e2dTerrainBase_MM_Ice"@.len() != "e2dTerrainDark_MM"@.len());
        assert("e2dTerrainBase_MM_TempleDarkRock"@.len() != "e2dTerrainDark_MM"@.len());
        assert("e2dTerrainBase_MM_caveSand"@.len() != "e2dTerrainDark_MM"@.len());
    }
    assert(level_splat1_rule("e2dTerrainDark_MM_CaveSand"@) == Some("Border_Maya_Cave.png"@)) by {
        assert("e2dTerrainBase_MM_rock"@.len() != "e2dTerrainDark_MM_CaveSand"@.len());
        assert("e2dTerrainBase_MM_sand"@.len() != "e2dTerrainDark_MM_CaveSand"@.len());
        assert("e2dTerrainBase_MM_Ice"@.len() != "e2dTerrainDark_MM_CaveSand"@.len());
        assert("e2dTerrainBase_MM_TempleDarkRock"@.len() != "e2dTerrainDark_MM_CaveSand"@.len());
        assert("e2dTerrainBase_MM_caveSand"@[10] != "e2dTerrainDark_MM_CaveSand"@[10]);
        assert("e2dTerrainDark_MM"@.len() != "e2dTerrainDark_MM_CaveSand"@.len());
    }
    assert(level_splat1_rule("e2dTerrainDark_MM_TempleDarkRock"@) == Some("Border_Maya_Cave.png"@)) by {
        assert("e2dTerrainBase_MM_rock"@.len() != "e2dTerrainDark_MM_TempleDarkRock"@.len());
        assert("e2dTerrainBase_MM_sand"@.len() != "e2dTerrainDark_MM_TempleDarkRock"@.len());
        assert("e2dTerrainBase_MM_Ice"@.len() != "e2dTerrainDark_MM_TempleDarkRock"@.len());
        assert("e2dTerrainBase_MM_TempleDarkRock"@[10] != "e2dTerrainDark_MM_TempleDarkRock"@[10]);
        assert("e2dTerrainBase_MM_caveSand"@.len() != "e2dTerrainDark_MM_TempleDarkRock"@.len());
        assert("e2dTerrainDark_MM"@.len() != "e2dTerrainDark_MM_TempleDarkRock"@.len());
        assert("e2dTerrainDark_MM_CaveSand"@.len() != "e2dTerrainDark_MM_TempleDarkRock"@.len());
    }
    assert(level_splat1_rule("e2dTerrainDark_MM_rock"@) == Some("Border.png"@)) by {
        assert("e2dTerrainBase_MM_rock"@[10] != "e2dTerrainDark_MM_rock"@[10]);
        assert("e2dTerrainBase_MM_sand"@[10] != "e2dTerrainDark_MM_rock"@[10]);
        assert("e2dTerrainBase_MM_Ice"@.len() != "e2dTerrainDark_MM_rock"@.len());
        assert("e2dTerrainBase_MM_TempleDarkRock"@.len() != "e2dTerrainDark_MM_rock"@.len());
        assert("e2dTerrainBase_MM_caveSand"@.len() != "e2dTerrainDark_MM_rock"@.len());
        assert("e2dTerrainDark_MM"@.len() != "e2dTerrainDark_MM_rock"@.len());
        assert("e2dTerrainDark_MM_CaveSand"@.len() != "e2dTerrainDark_MM_rock"@.len());
        assert("e2dTerrainDark_MM_TempleDarkRock"@.len() != "e2dTerrainDark_MM_rock"@.len());
    }
}

/// The terrain keys whose prefab border outranks level references: the
/// Maya rock, sand, temple and cave keys and their dark variants.
pub proof fn lemma_prefab_border_keys()
    ensures
        prefers_prefab_splat1("e2dTerrainBase_MM_rock"@),
        prefers_prefab_splat1("e2dTerrainBase_MM_sand"@),
        prefers_prefab_splat1("e2dTerrainBase_MM_TempleDarkRock"@),
        prefers_prefab_splat1("e2dTerrainBase_MM_caveSand"@),
        prefers_prefab_splat1("e2dTerrainDark_MM"@),
        prefers_prefab_splat1("e2dTerrainDark_MM_CaveSand"@),
        prefers_prefab_splat1("e2dTerrainDark_MM_TempleDarkRock"@),
        prefers_prefab_splat1("e2dTerrainDark_MM_rock"@),
{
}

} // verus!
