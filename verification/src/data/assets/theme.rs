//! Background theme detection from prefab and object names, and the
//! prefab-name rules for rendering and props tint.

use vstd::prelude::*;
use crate::data::assets::atlas_materials::last_value;
use crate::data::assets::atlas_materials::{guid_prefix, guid_prefix_spec};
use crate::data::assets::embedded::{
    list_pathnames, read_pathname_text, source_bytes_spec, source_records, AssetSource,
};
use crate::data::assets::unitypackage_loader::utf8_lossy_result;
use crate::data::assets::unitypackage_loader::listed;
use crate::order::strictly_sorted;
use crate::data::bg_data::{delimited_value, delimited_value_of, BgLayer};
use crate::text::{
    chars_eq, chars_to_string, contains, contains_lit, copy_range, eq_lit, find, find_lit, first_some, is_ascii_alphanumeric,
    is_ascii_digit, is_digit_char, lemma_find_from_bounds, lemma_first_some_end,
    lemma_first_some_step, lines, lower_char, lower_char_exec, rfind, rfind_lit, split_lines,
    split_on, split_on_lit, starts_with, starts_with_lit, str_chars, strings_view, strip_prefix,
    strip_prefix_lit, strip_suffix, strip_suffix_lit, trim, trim_chars, vv,
};

verus! {

// ── Names ────────────────────────────────────────────

/// Lowercases ASCII letters and digits and turns each run of other chars
/// into one `_`.
pub open spec fn collapse_name(s: Seq<char>) -> Seq<char>
    decreases s.len(),
{
    if s.len() == 0 {
        Seq::empty()
    } else {
        let p = s.drop_last();
        let c = s.last();
        if is_ascii_alphanumeric(c) {
            collapse_name(p).push(lower_char(c))
        } else if p.len() > 0 && !is_ascii_alphanumeric(p.last()) {
            collapse_name(p)
        } else {
            collapse_name(p).push('_')
        }
    }
}

/// `s` without its leading `_`s.
pub open spec fn strip_leading_underscores(s: Seq<char>) -> Seq<char>
    decreases s.len(),
{
    if s.len() > 0 && s[0] == '_' {
        strip_leading_underscores(s.drop_first())
    } else {
        s
    }
}

/// `s` without its trailing `_`s.
pub open spec fn strip_trailing_underscores(s: Seq<char>) -> Seq<char>
    decreases s.len(),
{
    if s.len() > 0 && s.last() == '_' {
        strip_trailing_underscores(s.drop_last())
    } else {
        s
    }
}

/// The normal form of a background name: ASCII letters and digits
/// lowercased, other runs turned into single `_`, no `_` at either end.
pub open spec fn normalize_bg_name_spec(name: Seq<char>) -> Seq<char> {
    strip_trailing_underscores(strip_leading_underscores(collapse_name(name)))
}

pub fn normalize_bg_name(name: &str) -> (r: Vec<char>)
    ensures
        r@ == normalize_bg_name_spec(name@),
{
    let s = str_chars(name);
    let mut out: Vec<char> = Vec::new();
    let mut last_was_separator = false;
    let mut k: usize = 0;
    while k < s.len()
        invariant
            s@ == name@,
            k <= s@.len(),
            out@ == collapse_name(s@.take(k as int)),
            last_was_separator == (k > 0 && !is_ascii_alphanumeric(s@[k - 1])),
        decreases s.len() - k,
    {
        let c = s[k];
        assert(s@.take(k + 1).drop_last() =~= s@.take(k as int));
        if is_alnum_char(c) {
            out.push(lower_char_exec(c));
            last_was_separator = false;
        } else if !last_was_separator {
            out.push('_');
            last_was_separator = true;
        }
        k = k + 1;
    }
    assert(s@.take(k as int) =~= s@);
    // trim `_` from both ends
    let mut i: usize = 0;
    let ghost c = out@;
    assert(c.skip(0) =~= c);
    while i < out.len() && out[i] == '_'
        invariant
            c == out@,
            i <= out@.len(),
            strip_leading_underscores(c) == strip_leading_underscores(c.skip(i as int)),
        decreases out.len() - i,
    {
        assert(c.skip(i as int).drop_first() =~= c.skip(i + 1));
        i = i + 1;
    }
    let ghost lead = c.skip(i as int);
    let mut j: usize = out.len();
    assert(lead.take(lead.len() as int) =~= lead);
    while j > i && out[j - 1] == '_'
        invariant
            c == out@,
            i <= j <= out@.len(),
            lead == c.skip(i as int),
            strip_trailing_underscores(lead) == strip_trailing_underscores(
                lead.take(j - i),
            ),
        decreases j,
    {
        assert(lead.take(j - i).drop_last() =~= lead.take(j - i - 1));
        j = j - 1;
    }
    assert(lead.take(j - i) =~= c.subrange(i as int, j as int));
    copy_range(out.as_slice(), i, j)
}

fn is_alnum_char(c: char) -> (r: bool)
    ensures
        r == is_ascii_alphanumeric(c),
{
    let u = c as u32;
    ('0' as u32 <= u && u <= '9' as u32) || ('A' as u32 <= u && u <= 'Z' as u32) || ('a' as u32
        <= u && u <= 'z' as u32)
}

/// The theme a normalized background prefab stem names.
pub open spec fn theme_from_background_stem_spec(normalized: Seq<char>) -> Option<Seq<char>> {
    let n = match strip_prefix(normalized, "background_"@) {
        Some(rest) => rest,
        None => normalized,
    };
    if n == "cave_01_set_1"@ {
        Some("Cave"@)
    } else if n == "forest_01_set_1"@ {
        Some("Morning"@)
    } else if n == "halloween"@ {
        Some("Halloween"@)
    } else if n == "jungle_01_set"@ {
        Some("Jungle"@)
    } else if n == "mm_01_set"@ {
        Some("Maya"@)
    } else if n == "mm_cave_01_set"@ {
        Some("MayaCave"@)
    } else if n == "mm_cave_01_set_dark"@ {
        Some("MayaCaveDark"@)
    } else if n == "mm_cave_02_set_dark"@ {
        Some("MayaCave2Dark"@)
    } else if n == "mm_high_01_set"@ {
        Some("MayaHigh"@)
    } else if n == "mm_temple_01_set_01"@ {
        Some("MayaTemple"@)
    } else if n == "night_01_set_1"@ {
        Some("Night"@)
    } else if n == "plateau_01_set"@ {
        Some("Plateau"@)
    } else {
        None
    }
}

fn theme_name_from_background_prefab_stem(normalized: &[char]) -> (r: Option<String>)
    ensures
        match r {
            Some(t) => theme_from_background_stem_spec(normalized@) == Some(t@),
            None => theme_from_background_stem_spec(normalized@) is None,
        },
{
    let n = match strip_prefix_lit(normalized, "background_") {
        Some(rest) => rest,
        None => copy_range(normalized, 0, normalized.len()),
    };
    assert(normalized@.subrange(0, normalized@.len() as int) =~= normalized@);
    let n = n.as_slice();
    if eq_lit(n, "cave_01_set_1") {
        Some("Cave".to_string())
    } else if eq_lit(n, "forest_01_set_1") {
        Some("Morning".to_string())
    } else if eq_lit(n, "halloween") {
        Some("Halloween".to_string())
    } else if eq_lit(n, "jungle_01_set") {
        Some("Jungle".to_string())
    } else if eq_lit(n, "mm_01_set") {
        Some("Maya".to_string())
    } else if eq_lit(n, "mm_cave_01_set") {
        Some("MayaCave".to_string())
    } else if eq_lit(n, "mm_cave_01_set_dark") {
        Some("MayaCaveDark".to_string())
    } else if eq_lit(n, "mm_cave_02_set_dark") {
        Some("MayaCave2Dark".to_string())
    } else if eq_lit(n, "mm_high_01_set") {
        Some("MayaHigh".to_string())
    } else if eq_lit(n, "mm_temple_01_set_01") {
        Some("MayaTemple".to_string())
    } else if eq_lit(n, "night_01_set_1") {
        Some("Night".to_string())
    } else if eq_lit(n, "plateau_01_set") {
        Some("Plateau".to_string())
    } else {
        None
    }
}

/// The theme a normalized cloud-set prefab stem names.
pub open spec fn theme_from_cloud_stem_spec(n: Seq<char>) -> Option<Seq<char>> {
    if n == "cloudhalloweenset"@ {
        Some("Halloween"@)
    } else if n == "cloudjungleset"@ {
        Some("Jungle"@)
    } else if n == "cloudlpaset"@ {
        Some("Maya"@)
    } else if n == "cloudnightset"@ {
        Some("Night"@)
    } else if n == "cloudplateauset"@ {
        Some("Plateau"@)
    } else {
        None
    }
}

fn theme_name_from_cloud_set_stem(n: &[char]) -> (r: Option<String>)
    ensures
        match r {
            Some(t) => theme_from_cloud_stem_spec(n@) == Some(t@),
            None => theme_from_cloud_stem_spec(n@) is None,
        },
{
    if eq_lit(n, "cloudhalloweenset") {
        Some("Halloween".to_string())
    } else if eq_lit(n, "cloudjungleset") {
        Some("Jungle".to_string())
    } else if eq_lit(n, "cloudlpaset") {
        Some("Maya".to_string())
    } else if eq_lit(n, "cloudnightset") {
        Some("Night".to_string())
    } else if eq_lit(n, "cloudplateauset") {
        Some("Plateau".to_string())
    } else {
        None
    }
}

// ── Theme priority ───────────────────────────────────

/// Background themes, most specific first.
pub open spec fn priority_theme(i: int) -> Seq<char> {
    if i == 0 {
        "MayaCave2Dark"@
    } else if i == 1 {
        "MayaCaveDark"@
    } else if i == 2 {
        "MayaCave"@
    } else if i == 3 {
        "MayaTemple"@
    } else if i == 4 {
        "MayaHigh"@
    } else if i == 5 {
        "Maya"@
    } else if i == 6 {
        "Jungle"@
    } else if i == 7 {
        "Plateau"@
    } else if i == 8 {
        "Morning"@
    } else if i == 9 {
        "Night"@
    } else if i == 10 {
        "Halloween"@
    } else {
        "Cave"@
    }
}

/// Number of known background themes.
pub open spec fn priority_len() -> int {
    12
}

fn priority_theme_exec(i: usize) -> (r: &'static str)
    requires
        i < 12,
    ensures
        r@ == priority_theme(i as int),
{
    if i == 0 {
        "MayaCave2Dark"
    } else if i == 1 {
        "MayaCaveDark"
    } else if i == 2 {
        "MayaCave"
    } else if i == 3 {
        "MayaTemple"
    } else if i == 4 {
        "MayaHigh"
    } else if i == 5 {
        "Maya"
    } else if i == 6 {
        "Jungle"
    } else if i == 7 {
        "Plateau"
    } else if i == 8 {
        "Morning"
    } else if i == 9 {
        "Night"
    } else if i == 10 {
        "Halloween"
    } else {
        "Cave"
    }
}

/// The first known theme whose normal form is `normalized`, from `i` on.
pub open spec fn canonical_from(normalized: Seq<char>, i: int) -> Option<Seq<char>>
    decreases priority_len() - i,
{
    if i >= priority_len() || i < 0 {
        None
    } else if normalize_bg_name_spec(priority_theme(i)) == normalized {
        Some(priority_theme(i))
    } else {
        canonical_from(normalized, i + 1)
    }
}

pub open spec fn canonical_theme_spec(normalized: Seq<char>) -> Option<Seq<char>> {
    canonical_from(normalized, 0)
}

/// The known theme whose normal form is `normalized`.
fn canonical_background_theme_name(normalized: &[char]) -> (r: Option<String>)
    ensures
        match r {
            Some(t) => canonical_theme_spec(normalized@) == Some(t@),
            None => canonical_theme_spec(normalized@) is None,
        },
{
    let mut i: usize = 0;
    while i < 12
        invariant
            i <= 12,
            canonical_theme_spec(normalized@) == canonical_from(normalized@, i as int),
        decreases 12 - i,
    {
        let t = priority_theme_exec(i);
        let n = normalize_bg_name(t);
        if chars_eq(n.as_slice(), normalized) {
            return Some(t.to_string());
        }
        i = i + 1;
    }
    None
}

/// Position of a theme in the priority list; `usize::MAX` for an unknown
/// theme.
pub open spec fn theme_priority_spec(theme: Seq<char>) -> int {
    priority_from(theme, 0)
}

pub open spec fn priority_from(theme: Seq<char>, i: int) -> int
    decreases priority_len() - i,
{
    if i >= priority_len() || i < 0 {
        usize::MAX as int
    } else if priority_theme(i) == theme {
        i
    } else {
        priority_from(theme, i + 1)
    }
}

fn theme_priority(theme: &[char]) -> (r: usize)
    ensures
        r == theme_priority_spec(theme@),
{
    let mut i: usize = 0;
    while i < 12
        invariant
            i <= 12,
            theme_priority_spec(theme@) == priority_from(theme@, i as int),
        decreases 12 - i,
    {
        let t = str_chars(priority_theme_exec(i));
        if chars_eq(t.as_slice(), theme) {
            return i;
        }
        i = i + 1;
    }
    usize::MAX
}

/// A normalized name that reads as a background.
pub open spec fn looks_like_background_spec(n: Seq<char>) -> bool {
    starts_with(n, "background_"@) || starts_with(n, "background"@) || starts_with(n, "bg_"@)
}

fn looks_like_background_name(n: &[char]) -> (r: bool)
    ensures
        r == looks_like_background_spec(n@),
{
    starts_with_lit(n, "background_") || starts_with_lit(n, "background") || starts_with_lit(
        n,
        "bg_",
    )
}

// ── Aliases ──────────────────────────────────────────

/// The stem of a file name: before its last `.`, unless that dot starts
/// the name.
pub open spec fn file_stem(f: Seq<char>) -> Seq<char> {
    let name = match rfind(f, "/"@) {
        Some(i) => f.skip(i + 1),
        None => f,
    };
    match rfind(name, "."@) {
        Some(i) => if i == 0 {
            name
        } else {
            name.take(i)
        },
        None => name,
    }
}

fn file_stem_of(f: &[char]) -> (r: Vec<char>)
    ensures
        r@ == file_stem(f@),
{
    proof {
        reveal_strlit("/");
        reveal_strlit(".");
    }
    let name = match rfind_lit(f, "/") {
        Some(i) => {
            let n = f.len();
            assert(i + 1 <= n);
            copy_range(f, i + 1, n)
        },
        None => copy_range(f, 0, f.len()),
    };
    assert(f@.subrange(0, f@.len() as int) =~= f@);
    match rfind_lit(name.as_slice(), ".") {
        Some(i) => if i == 0 {
            name
        } else {
            copy_range(name.as_slice(), 0, i)
        },
        None => name,
    }
}

/// `s` without `prefix`, or `s` itself.
pub open spec fn without_prefix(s: Seq<char>, prefix: Seq<char>) -> Seq<char> {
    match strip_prefix(s, prefix) {
        Some(r) => r,
        None => s,
    }
}

/// The alias entries one prefab path contributes: its normalized stem,
/// file name and path, each naming the theme of the stem.
pub open spec fn path_aliases(p: Seq<char>, dir: Seq<char>, cloud: bool) -> Seq<
    (Seq<char>, Seq<char>),
> {
    let filename = without_prefix(p, dir);
    let n = normalize_bg_name_spec(file_stem(filename));
    let theme = if cloud {
        theme_from_cloud_stem_spec(n)
    } else {
        theme_from_background_stem_spec(n)
    };
    match theme {
        Some(t) => seq![(n, t), (normalize_bg_name_spec(filename), t), (normalize_bg_name_spec(p), t)],
        None => Seq::empty(),
    }
}

/// The alias entries of a list of prefab paths, in order.
pub open spec fn paths_aliases(ps: Seq<Seq<char>>, dir: Seq<char>, cloud: bool) -> Seq<
    (Seq<char>, Seq<char>),
>
    decreases ps.len(),
{
    if ps.len() == 0 {
        Seq::empty()
    } else {
        paths_aliases(ps.drop_last(), dir, cloud) + path_aliases(ps.last(), dir, cloud)
    }
}

/// Background prefab directory.
pub open spec fn bg_dir() -> Seq<char> {
    "Assets/Resources/environment/background/"@
}

/// Prefab directory.
pub open spec fn prefab_dir() -> Seq<char> {
    "Assets/Prefab/"@
}

/// The sorted listing of the pathnames under `dir` ending in `.prefab`.
pub open spec fn is_prefab_listing(
    recs: Seq<(Seq<char>, Seq<char>, Seq<u8>)>,
    dir: Seq<char>,
    ps: Seq<Seq<char>>,
) -> bool {
    strictly_sorted(ps) && forall|t: Seq<char>| #[trigger]
        ps.contains(t) <==> listed(recs, dir, ".prefab"@, t)
}

/// The theme of background prefab names in any of their known forms.
pub struct ThemeAliases {
    pub entries: Vec<(String, String)>,
}

pub open spec fn aliases_view(a: ThemeAliases) -> Seq<(Seq<char>, Seq<char>)> {
    a.entries@.map_values(|e: (String, String)| (e.0@, e.1@))
}

fn push_path_aliases(entries: &mut Vec<(String, String)>, p: &[char], dir: &str, cloud: bool)
    ensures
        final(entries)@.map_values(|e: (String, String)| (e.0@, e.1@)) == old(
            entries,
        )@.map_values(|e: (String, String)| (e.0@, e.1@)) + path_aliases(p@, dir@, cloud),
{
    let filename = match strip_prefix_lit(p, dir) {
        Some(f) => f,
        None => copy_range(p, 0, p.len()),
    };
    assert(p@.subrange(0, p@.len() as int) =~= p@);
    let stem = file_stem_of(filename.as_slice());
    let stem_s = chars_to_string(stem.as_slice());
    let n = normalize_bg_name(stem_s.as_str());
    let theme = if cloud {
        theme_name_from_cloud_set_stem(n.as_slice())
    } else {
        theme_name_from_background_prefab_stem(n.as_slice())
    };
    let ghost before = entries@.map_values(|e: (String, String)| (e.0@, e.1@));
    match theme {
        Some(t) => {
            let fs = chars_to_string(filename.as_slice());
            let ps = chars_to_string(p);
            let nf = normalize_bg_name(fs.as_str());
            let np = normalize_bg_name(ps.as_str());
            let t1 = t.clone();
            let t2 = t.clone();
            entries.push((chars_to_string(n.as_slice()), t));
            entries.push((chars_to_string(nf.as_slice()), t1));
            entries.push((chars_to_string(np.as_slice()), t2));
            assert(entries@.map_values(|e: (String, String)| (e.0@, e.1@)) =~= before + path_aliases(
                p@,
                dir@,
                cloud,
            ));
        },
        None => {
            assert(entries@.map_values(|e: (String, String)| (e.0@, e.1@)) =~= before + path_aliases(
                p@,
                dir@,
                cloud,
            ));
        },
    }
}

fn push_paths_aliases(entries: &mut Vec<(String, String)>, ps: &Vec<String>, dir: &str, cloud: bool)
    ensures
        final(entries)@.map_values(|e: (String, String)| (e.0@, e.1@)) == old(
            entries,
        )@.map_values(|e: (String, String)| (e.0@, e.1@)) + paths_aliases(
            strings_view(ps@),
            dir@,
            cloud,
        ),
{
    let ghost start = entries@.map_values(|e: (String, String)| (e.0@, e.1@));
    let ghost pv = strings_view(ps@);
    let mut i: usize = 0;
    assert(pv.take(0) =~= Seq::<Seq<char>>::empty());
    while i < ps.len()
        invariant
            pv == strings_view(ps@),
            i <= ps@.len(),
            entries@.map_values(|e: (String, String)| (e.0@, e.1@)) == start + paths_aliases(
                pv.take(i as int),
                dir@,
                cloud,
            ),
        decreases ps.len() - i,
    {
        let p = str_chars(ps[i].as_str());
        assert(p@ == pv[i as int]);
        push_path_aliases(entries, p.as_slice(), dir, cloud);
        assert(pv.take(i + 1).drop_last() =~= pv.take(i as int));
        i = i + 1;
    }
    assert(pv.take(i as int) =~= pv);
}

/// Builds the aliases from the background prefabs and the cloud-set
/// prefabs of an asset source.
pub fn build_background_theme_aliases(source: &AssetSource) -> (r: ThemeAliases)
    ensures
        exists|bg: Seq<Seq<char>>, clouds: Seq<Seq<char>>|
            is_prefab_listing(source_records(*source), bg_dir(), bg) && is_prefab_listing(
                source_records(*source),
                prefab_dir(),
                clouds,
            ) && aliases_view(r) == paths_aliases(bg, bg_dir(), false) + paths_aliases(
                clouds,
                prefab_dir(),
                true,
            ),
{
    let bg = list_pathnames(source, "Assets/Resources/environment/background/", ".prefab");
    let clouds = list_pathnames(source, "Assets/Prefab/", ".prefab");
    let mut entries: Vec<(String, String)> = Vec::new();
    push_paths_aliases(&mut entries, &bg, "Assets/Resources/environment/background/", false);
    push_paths_aliases(&mut entries, &clouds, "Assets/Prefab/", true);
    assert(is_prefab_listing(source_records(*source), bg_dir(), strings_view(bg@)));
    assert(is_prefab_listing(source_records(*source), prefab_dir(), strings_view(clouds@)));
    ThemeAliases { entries }
}

/// The theme of a background prefab name: through the aliases, else the
/// known theme of the same normal form.
pub open spec fn theme_for_prefab_spec(aliases: Seq<(Seq<char>, Seq<char>)>, name: Seq<char>) -> Option<
    Seq<char>,
> {
    let n = normalize_bg_name_spec(name);
    match last_value(aliases, n) {
        Some(t) => Some(t),
        None => canonical_theme_spec(n),
    }
}

pub fn theme_name_for_background_prefab(aliases: &ThemeAliases, name: &str) -> (r: Option<String>)
    ensures
        match r {
            Some(t) => theme_for_prefab_spec(aliases_view(*aliases), name@) == Some(t@),
            None => theme_for_prefab_spec(aliases_view(*aliases), name@) is None,
        },
{
    let n = normalize_bg_name(name);
    let ghost tv = aliases_view(*aliases);
    let mut i: usize = aliases.entries.len();
    assert(tv.take(i as int) =~= tv);
    while i > 0
        invariant
            i <= aliases.entries@.len(),
            tv == aliases_view(*aliases),
            n@ == normalize_bg_name_spec(name@),
            last_value(tv, n@) == last_value(tv.take(i as int), n@),
        decreases i,
    {
        let e = &aliases.entries[i - 1];
        let ek = str_chars(e.0.as_str());
        assert(tv.take(i as int).drop_last() =~= tv.take(i - 1));
        assert(tv[i - 1] == (e.0@, e.1@));
        if chars_eq(ek.as_slice(), n.as_slice()) {
            assert(tv.take(i as int).last() == tv[i - 1]);
            let t = str_chars(e.1.as_str());
            return Some(chars_to_string(t.as_slice()));
        }
        i = i - 1;
    }
    canonical_background_theme_name(n.as_slice())
}

// ── Detection ────────────────────────────────────────

/// Whether `theme` replaces the best theme so far.
pub open spec fn better_theme(best: Option<Seq<char>>, theme: Seq<char>) -> bool {
    match best {
        Some(current) => !(theme_priority_spec(current) <= theme_priority_spec(theme)),
        None => true,
    }
}

/// The theme object names suggest, over the first `n` names: a name's
/// theme counts unless it is `Cave` on a name that does not read as a
/// background; the most specific theme wins, the first of equals.
pub open spec fn themes_from_names(
    aliases: Seq<(Seq<char>, Seq<char>)>,
    names: Seq<Seq<char>>,
    n: nat,
) -> Option<Seq<char>>
    decreases n,
{
    if n == 0 {
        None
    } else {
        let best = themes_from_names(aliases, names, (n - 1) as nat);
        let name = names[n - 1];
        match theme_for_prefab_spec(aliases, name) {
            Some(theme) => if theme == "Cave"@ && !looks_like_background_spec(
                normalize_bg_name_spec(name),
            ) {
                best
            } else if better_theme(best, theme) {
                Some(theme)
            } else {
                best
            },
            None => best,
        }
    }
}

fn detect_bg_theme_from_names(aliases: &ThemeAliases, object_names: &[String]) -> (r: Option<
    String,
>)
    ensures
        match r {
            Some(t) => themes_from_names(
                aliases_view(*aliases),
                strings_view(object_names@),
                object_names@.len(),
            ) == Some(t@),
            None => themes_from_names(
                aliases_view(*aliases),
                strings_view(object_names@),
                object_names@.len(),
            ) is None,
        },
{
    let ghost names = strings_view(object_names@);
    let ghost av = aliases_view(*aliases);
    let mut best: Option<String> = None;
    let mut i: usize = 0;
    while i < object_names.len()
        invariant
            names == strings_view(object_names@),
            av == aliases_view(*aliases),
            i <= object_names@.len(),
            themes_from_names(av, names, i as nat) == (match best {
                Some(b) => Some(b@),
                None => None,
            }),
        decreases object_names.len() - i,
    {
        let name = object_names[i].as_str();
        assert(name@ == names[i as int]);
        let normalized = normalize_bg_name(name);
        match theme_name_for_background_prefab(aliases, name) {
            Some(theme) => {
                let tc = str_chars(theme.as_str());
                let skip = eq_lit(tc.as_slice(), "Cave") && !looks_like_background_name(
                    normalized.as_slice(),
                );
                if !skip {
                    let replace = match &best {
                        Some(current) => {
                            let cc = str_chars(current.as_str());
                            !(theme_priority(cc.as_slice()) <= theme_priority(tc.as_slice()))
                        },
                        None => true,
                    };
                    if replace {
                        best = Some(theme);
                    }
                }
            },
            None => {},
        }
        i = i + 1;
    }
    best
}

/// The theme a background: first the theme of the background prefab the
/// level's background override refers to, then that of the override's
/// root object, then what the object names suggest.
pub open spec fn detect_bg_theme_spec(
    aliases: Seq<(Seq<char>, Seq<char>)>,
    names: Seq<Seq<char>>,
    prefab_name: Option<Seq<char>>,
    root_name: Option<Seq<char>>,
) -> Option<Seq<char>> {
    let from_prefab = match prefab_name {
        Some(p) => theme_for_prefab_spec(aliases, p),
        None => None,
    };
    let from_root = match root_name {
        Some(n) => theme_for_prefab_spec(aliases, n),
        None => None,
    };
    if from_prefab is Some {
        from_prefab
    } else if from_root is Some {
        from_root
    } else {
        themes_from_names(aliases, names, names.len())
    }
}

/// A name whose theme is `Cave` but which does not read as a background
/// (a generic cave object, not a cave backdrop).
pub open spec fn cave_object_name(aliases: Seq<(Seq<char>, Seq<char>)>, name: Seq<char>) -> bool {
    theme_for_prefab_spec(aliases, name) == Some("Cave"@) && !looks_like_background_spec(
        normalize_bg_name_spec(name),
    )
}

/// The names without the cave object names, in order.
pub open spec fn without_cave_objects(
    aliases: Seq<(Seq<char>, Seq<char>)>,
    names: Seq<Seq<char>>,
) -> Seq<Seq<char>>
    decreases names.len(),
{
    if names.len() == 0 {
        Seq::empty()
    } else {
        let rest = without_cave_objects(aliases, names.drop_last());
        if cave_object_name(aliases, names.last()) {
            rest
        } else {
            rest.push(names.last())
        }
    }
}

proof fn lemma_themes_from_names_prefix(
    aliases: Seq<(Seq<char>, Seq<char>)>,
    a: Seq<Seq<char>>,
    b: Seq<Seq<char>>,
    n: nat,
)
    requires
        n <= a.len(),
        n <= b.len(),
        a.take(n as int) == b.take(n as int),
    ensures
        themes_from_names(aliases, a, n) == themes_from_names(aliases, b, n),
    decreases n,
{
    if n > 0 {
        assert(a.take(n as int)[n - 1] == a[n - 1]);
        assert(b.take(n as int)[n - 1] == b[n - 1]);
        assert(a.take(n - 1) =~= a.take(n as int).take(n - 1));
        assert(b.take(n - 1) =~= b.take(n as int).take(n - 1));
        lemma_themes_from_names_prefix(aliases, a, b, (n - 1) as nat);
    }
}

proof fn lemma_names_ignore_cave_objects(aliases: Seq<(Seq<char>, Seq<char>)>, names: Seq<Seq<char>>)
    ensures
        themes_from_names(aliases, names, names.len()) == themes_from_names(
            aliases,
            without_cave_objects(aliases, names),
            without_cave_objects(aliases, names).len(),
        ),
    decreases names.len(),
{
    if names.len() > 0 {
        let dl = names.drop_last();
        let f = without_cave_objects(aliases, names);
        let fd = without_cave_objects(aliases, dl);
        lemma_names_ignore_cave_objects(aliases, dl);
        assert(names.take(dl.len() as int) =~= dl.take(dl.len() as int));
        lemma_themes_from_names_prefix(aliases, names, dl, dl.len());
        if !cave_object_name(aliases, names.last()) {
            assert(f == fd.push(names.last()));
            assert(f[fd.len() as int] == names.last());
            assert(f.take(fd.len() as int) =~= fd.take(fd.len() as int));
            lemma_themes_from_names_prefix(aliases, f, fd, fd.len());
        }
    }
}

/// Generic cave objects never decide the theme: detection over a level's
/// object names gives what it gives over the same names without those
/// whose theme is `Cave` but that do not read as a background.
pub proof fn lemma_cave_objects_do_not_set_the_theme(
    aliases: Seq<(Seq<char>, Seq<char>)>,
    names: Seq<Seq<char>>,
    prefab_name: Option<Seq<char>>,
    root_name: Option<Seq<char>>,
)
    ensures
        detect_bg_theme_spec(aliases, names, prefab_name, root_name) == detect_bg_theme_spec(
            aliases,
            without_cave_objects(aliases, names),
            prefab_name,
            root_name,
        ),
{
    lemma_names_ignore_cave_objects(aliases, names);
}

pub open spec fn opt_str_view(o: Option<&str>) -> Option<Seq<char>> {
    match o {
        Some(s) => Some(s@),
        None => None,
    }
}

/// Detect which background theme to use. `background_prefab_name` is the
/// background prefab the level's background override refers to and
/// `override_root_name` the name of that override's root object, where the
/// level has one.
pub fn detect_bg_theme(
    aliases: &ThemeAliases,
    object_names: &[String],
    background_prefab_name: Option<&str>,
    override_root_name: Option<&str>,
) -> (r: Option<String>)
    ensures
        match r {
            Some(t) => detect_bg_theme_spec(
                aliases_view(*aliases),
                strings_view(object_names@),
                opt_str_view(background_prefab_name),
                opt_str_view(override_root_name),
            ) == Some(t@),
            None => detect_bg_theme_spec(
                aliases_view(*aliases),
                strings_view(object_names@),
                opt_str_view(background_prefab_name),
                opt_str_view(override_root_name),
            ) is None,
        },
{
    match background_prefab_name {
        Some(p) => match theme_name_for_background_prefab(aliases, p) {
            Some(t) => {
                return Some(t);
            },
            None => {},
        },
        None => {},
    }
    match override_root_name {
        Some(n) => match theme_name_for_background_prefab(aliases, n) {
            Some(t) => {
                return Some(t);
            },
            None => {},
        },
        None => {},
    }
    detect_bg_theme_from_names(aliases, object_names)
}


// ── Prefab lookups ───────────────────────────────────

/// A value per prefab (or sprite) name; a later entry for a name replaces
/// an earlier one.
pub struct PrefabTable<V> {
    pub entries: Vec<(String, V)>,
}

/// A flag per prefab (or sprite) name.
pub type PrefabFlags = PrefabTable<bool>;

pub open spec fn flags_view<V>(f: PrefabTable<V>) -> Seq<(Seq<char>, V)> {
    f.entries@.map_values(|e: (String, V)| (e.0@, e.1))
}

/// The value of the last entry for `k`.
pub open spec fn flag_get<V>(es: Seq<(Seq<char>, V)>, k: Seq<char>) -> Option<V>
    decreases es.len(),
{
    if es.len() == 0 {
        None
    } else if es.last().0 == k {
        Some(es.last().1)
    } else {
        flag_get(es.drop_last(), k)
    }
}

/// The position of the last entry for `k`.
pub(crate) fn flag_index<V>(flags: &PrefabTable<V>, k: &[char]) -> (r: Option<usize>)
    ensures
        match r {
            Some(i) => i < flags.entries@.len() && flag_get(flags_view(*flags), k@) == Some(
                flags.entries@[i as int].1,
            ),
            None => flag_get(flags_view(*flags), k@) is None,
        },
{
    let ghost tv = flags_view(*flags);
    let mut i: usize = flags.entries.len();
    assert(tv.take(i as int) =~= tv);
    while i > 0
        invariant
            i <= flags.entries@.len(),
            tv == flags_view(*flags),
            flag_get(tv, k@) == flag_get(tv.take(i as int), k@),
        decreases i,
    {
        let ek = str_chars(flags.entries[i - 1].0.as_str());
        assert(tv.take(i as int).drop_last() =~= tv.take(i - 1));
        assert(tv[i - 1] == (flags.entries@[i - 1].0@, flags.entries@[i - 1].1));
        if chars_eq(ek.as_slice(), k) {
            assert(tv.take(i as int).last() == tv[i - 1]);
            return Some(i - 1);
        }
        i = i - 1;
    }
    None
}

pub(crate) fn flag_get_exec<V: Copy>(flags: &PrefabTable<V>, k: &[char]) -> (r: Option<V>)
    ensures
        r == flag_get(flags_view(*flags), k@),
{
    match flag_index(flags, k) {
        Some(i) => Some(flags.entries[i].1),
        None => None,
    }
}

/// A name before its first ` (`: `Twig_1 (2)` is `Twig_1`.
pub open spec fn paren_base(name: Seq<char>) -> Seq<char> {
    match find(name, " ("@) {
        Some(i) => name.take(i),
        None => name,
    }
}

/// A name without its trailing ASCII digits.
pub open spec fn trim_end_digits(s: Seq<char>) -> Seq<char>
    decreases s.len(),
{
    if s.len() > 0 && is_ascii_digit(s.last()) {
        trim_end_digits(s.drop_last())
    } else {
        s
    }
}

/// A name before its last `_` when only ASCII digits follow it.
pub open spec fn numbered_base(name: Seq<char>) -> Option<Seq<char>> {
    match rfind(name, "_"@) {
        Some(pos) => if forall|k: int| pos + 1 <= k < name.len() ==> is_ascii_digit(#[trigger] name[k]) {
            Some(name.take(pos))
        } else {
            None
        },
        None => None,
    }
}

/// The entry for a prefab name: the name itself, else its base before
/// ` (`, else the name without trailing digits, else the name before a
/// numeric `_` suffix.
pub open spec fn prefab_lookup_spec<V>(es: Seq<(Seq<char>, V)>, name: Seq<char>) -> Option<V> {
    let base = paren_base(name);
    let trimmed = trim_end_digits(name);
    if flag_get(es, name) is Some {
        flag_get(es, name)
    } else if base != name && flag_get(es, base) is Some {
        flag_get(es, base)
    } else if trimmed != name && trimmed.len() > 0 && flag_get(es, trimmed) is Some {
        flag_get(es, trimmed)
    } else {
        match numbered_base(name) {
            Some(b) => flag_get(es, b),
            None => None,
        }
    }
}

fn paren_base_of(name: &[char]) -> (r: Vec<char>)
    ensures
        r@ == paren_base(name@),
{
    match find_lit(name, " (") {
        Some(i) => {
            proof {
                lemma_find_from_bounds(name@, " ("@, 0);
            }
            copy_range(name, 0, i)
        },
        None => {
            assert(name@.subrange(0, name@.len() as int) =~= name@);
            copy_range(name, 0, name.len())
        },
    }
}

fn trim_end_digits_of(name: &[char]) -> (r: Vec<char>)
    ensures
        r@ == trim_end_digits(name@),
{
    let mut j: usize = name.len();
    assert(name@.take(j as int) =~= name@);
    while j > 0 && is_digit_char(name[j - 1])
        invariant
            j <= name@.len(),
            trim_end_digits(name@) == trim_end_digits(name@.take(j as int)),
        decreases j,
    {
        assert(name@.take(j as int).drop_last() =~= name@.take(j - 1));
        j = j - 1;
    }
    assert(name@.take(j as int) =~= name@.subrange(0, j as int));
    copy_range(name, 0, j)
}

fn numbered_base_of(name: &[char]) -> (r: Option<Vec<char>>)
    ensures
        match r {
            Some(b) => numbered_base(name@) == Some(b@),
            None => numbered_base(name@) is None,
        },
{
    proof {
        reveal_strlit("_");
    }
    match rfind_lit(name, "_") {
        Some(pos) => {
            let n = name.len();
            assert(pos + 1 <= n);
            let mut k: usize = pos + 1;
            while k < n
                invariant
                    n == name@.len(),
                    rfind(name@, "_"@) == Some(pos as int),
                    pos + 1 <= k <= n,
                    forall|m: int| pos + 1 <= m < k ==> is_ascii_digit(#[trigger] name@[m]),
                decreases n - k,
            {
                if !is_digit_char(name[k]) {
                    assert(!is_ascii_digit(name@[k as int]));
                    return None;
                }
                k = k + 1;
            }
            Some(copy_range(name, 0, pos))
        },
        None => None,
    }
}

/// The position of the entry for a prefab name (see `prefab_lookup_spec`).
pub fn prefab_asset_index<V>(flags: &PrefabTable<V>, name: &str) -> (r: Option<usize>)
    ensures
        match r {
            Some(i) => i < flags.entries@.len() && prefab_lookup_spec(flags_view(*flags), name@)
                == Some(flags.entries@[i as int].1),
            None => prefab_lookup_spec(flags_view(*flags), name@) is None,
        },
{
    let n = str_chars(name);
    let direct = flag_index(flags, n.as_slice());
    if direct.is_some() {
        return direct;
    }
    let base = paren_base_of(n.as_slice());
    if !chars_eq(base.as_slice(), n.as_slice()) {
        let v = flag_index(flags, base.as_slice());
        if v.is_some() {
            return v;
        }
    }
    let trimmed = trim_end_digits_of(n.as_slice());
    if !chars_eq(trimmed.as_slice(), n.as_slice()) && trimmed.len() > 0 {
        let v = flag_index(flags, trimmed.as_slice());
        if v.is_some() {
            return v;
        }
    }
    match numbered_base_of(n.as_slice()) {
        Some(b) => flag_index(flags, b.as_slice()),
        None => None,
    }
}

/// The entry for a prefab name (see `prefab_lookup_spec`).
pub fn prefab_asset_lookup<V: Copy>(flags: &PrefabTable<V>, name: &str) -> (r: Option<V>)
    ensures
        r == prefab_lookup_spec(flags_view(*flags), name@),
{
    match prefab_asset_index(flags, name) {
        Some(i) => Some(flags.entries[i].1),
        None => None,
    }
}

/// The entry for a sprite name: as for a prefab, else that of `<name>_01`.
pub open spec fn sprite_lookup_spec<V>(es: Seq<(Seq<char>, V)>, name: Seq<char>) -> Option<V> {
    if prefab_lookup_spec(es, name) is Some {
        prefab_lookup_spec(es, name)
    } else {
        flag_get(es, name + "_01"@)
    }
}

/// The position of the entry for a sprite name (see `sprite_lookup_spec`).
pub fn sprite_asset_index<V>(flags: &PrefabTable<V>, name: &str) -> (r: Option<usize>)
    ensures
        match r {
            Some(i) => i < flags.entries@.len() && sprite_lookup_spec(flags_view(*flags), name@)
                == Some(flags.entries@[i as int].1),
            None => sprite_lookup_spec(flags_view(*flags), name@) is None,
        },
{
    let v = prefab_asset_index(flags, name);
    if v.is_some() {
        return v;
    }
    let mut k = str_chars(name);
    let suffix = str_chars("_01");
    let ghost start = k@;
    let mut i: usize = 0;
    while i < suffix.len()
        invariant
            i <= suffix@.len(),
            suffix@ == "_01"@,
            k@ == start + suffix@.take(i as int),
        decreases suffix.len() - i,
    {
        k.push(suffix[i]);
        i = i + 1;
        assert(k@ =~= start + suffix@.take(i as int));
    }
    assert(suffix@.take(i as int) =~= suffix@);
    flag_index(flags, k.as_slice())
}

fn sprite_asset_lookup<V: Copy>(flags: &PrefabTable<V>, name: &str) -> (r: Option<V>)
    ensures
        r == sprite_lookup_spec(flags_view(*flags), name@),
{
    match sprite_asset_index(flags, name) {
        Some(i) => Some(flags.entries[i].1),
        None => None,
    }
}

// ── Prefab documents ─────────────────────────────────

/// The YAML documents of a prefab text: what follows each `--- `.
pub open spec fn prefab_docs(text: Seq<char>) -> Seq<Seq<char>> {
    split_on(text, "--- "@).skip(1)
}

/// A document whose first line, trimmed, opens a mesh renderer (class 23).
pub open spec fn is_mesh_renderer_doc(doc: Seq<char>) -> bool {
    lines(doc).len() > 0 && starts_with(trim(lines(doc)[0]), "!u!23 "@)
}

/// The material GUID of a line: after its first `guid: `, up to `,` or
/// `}`, trimmed, when not empty.
pub open spec fn line_material_guid(l: Seq<char>) -> Option<Seq<char>> {
    match delimited_value(l, "guid: "@) {
        Some(g) => if g.len() > 0 {
            Some(g)
        } else {
            None
        },
        None => None,
    }
}

/// The first material GUID a mesh renderer document lists.
pub open spec fn doc_material_guid(doc: Seq<char>) -> Option<Seq<char>> {
    if is_mesh_renderer_doc(doc) {
        first_some(lines(doc).map_values(|l: Seq<char>| line_material_guid(l)))
    } else {
        None
    }
}

/// The material GUID of a prefab: the first that a mesh renderer lists.
pub open spec fn prefab_material_guid_spec(text: Seq<char>) -> Option<Seq<char>> {
    first_some(prefab_docs(text).map_values(|d: Seq<char>| doc_material_guid(d)))
}

/// A prefab with a mesh renderer.
pub open spec fn has_mesh_renderer_spec(text: Seq<char>) -> bool {
    exists|i: int|
        0 <= i < prefab_docs(text).len() && is_mesh_renderer_doc(#[trigger] prefab_docs(text)[i])
}

fn mesh_renderer_doc(doc: &[char]) -> (r: bool)
    ensures
        r == is_mesh_renderer_doc(doc@),
{
    let ls = split_lines(doc);
    if ls.len() == 0 {
        return false;
    }
    let h = trim_chars(ls[0].as_slice());
    assert(vv(ls@)[0] == ls@[0]@);
    starts_with_lit(h.as_slice(), "!u!23 ")
}

fn doc_material_guid_of(doc: &[char]) -> (r: Option<Vec<char>>)
    ensures
        match r {
            Some(g) => doc_material_guid(doc@) == Some(g@),
            None => doc_material_guid(doc@) is None,
        },
{
    if !mesh_renderer_doc(doc) {
        return None;
    }
    let ls = split_lines(doc);
    let ghost vals = lines(doc@).map_values(|l: Seq<char>| line_material_guid(l));
    let mut i: usize = 0;
    assert(vals.skip(0) =~= vals);
    while i < ls.len()
        invariant
            is_mesh_renderer_doc(doc@),
            vv(ls@) == lines(doc@),
            vals == lines(doc@).map_values(|l: Seq<char>| line_material_guid(l)),
            i <= ls@.len(),
            first_some(vals) == first_some(vals.skip(i as int)),
        decreases ls.len() - i,
    {
        proof {
            lemma_first_some_step(vals, i as int);
            assert(vals[i as int] == line_material_guid(ls@[i as int]@));
        }
        match delimited_value_of(ls[i].as_slice(), "guid: ") {
            Some(g) => {
                if g.len() > 0 {
                    return Some(g);
                }
            },
            None => {},
        }
        i = i + 1;
    }
    proof {
        lemma_first_some_end(vals);
    }
    None
}

/// The material GUID of a prefab text.
pub fn prefab_material_guid(prefab_text: &str) -> (r: Option<String>)
    ensures
        match r {
            Some(g) => prefab_material_guid_spec(prefab_text@) == Some(g@),
            None => prefab_material_guid_spec(prefab_text@) is None,
        },
{
    proof {
        reveal_strlit("--- ");
    }
    let t = str_chars(prefab_text);
    let parts = split_on_lit(t.as_slice(), "--- ");
    let ghost docs = prefab_docs(prefab_text@);
    let ghost vals = docs.map_values(|d: Seq<char>| doc_material_guid(d));
    assert(vals.skip(0) =~= vals);
    let mut i: usize = 1;
    while i < parts.len()
        invariant
            vv(parts@) == split_on(prefab_text@, "--- "@),
            docs == prefab_docs(prefab_text@),
            vals == docs.map_values(|d: Seq<char>| doc_material_guid(d)),
            1 <= i,
            i <= parts@.len() || parts@.len() == 0,
            parts@.len() > 0 ==> first_some(vals) == first_some(vals.skip(i - 1)),
        decreases parts.len() - i,
    {
        proof {
            lemma_first_some_step(vals, i - 1);
            assert(docs[i - 1] == parts@[i as int]@);
        }
        match doc_material_guid_of(parts[i].as_slice()) {
            Some(g) => {
                return Some(chars_to_string(g.as_slice()));
            },
            None => {},
        }
        i = i + 1;
    }
    proof {
        if parts@.len() > 0 {
            assert(vals.skip(i - 1).len() == 0);
        } else {
            assert(vals.len() == 0);
        }
        assert(vals.skip(vals.len() as int).len() == 0);
        lemma_first_some_end(vals);
    }
    None
}

/// Whether a prefab text holds a mesh renderer.
pub fn prefab_has_mesh_renderer(prefab_text: &str) -> (r: bool)
    ensures
        r == has_mesh_renderer_spec(prefab_text@),
{
    proof {
        reveal_strlit("--- ");
    }
    let t = str_chars(prefab_text);
    let parts = split_on_lit(t.as_slice(), "--- ");
    let ghost docs = prefab_docs(prefab_text@);
    let mut i: usize = 1;
    while i < parts.len()
        invariant
            vv(parts@) == split_on(prefab_text@, "--- "@),
            docs == prefab_docs(prefab_text@),
            1 <= i,
            parts@.len() > 0 ==> i <= parts@.len(),
            forall|k: int| 0 <= k < i - 1 && k < docs.len() ==> !is_mesh_renderer_doc(#[trigger] docs[k]),
        decreases parts.len() - i,
    {
        assert(docs[i - 1] == parts@[i as int]@);
        if mesh_renderer_doc(parts[i].as_slice()) {
            return true;
        }
        i = i + 1;
    }
    false
}


// ── Prefab tables ────────────────────────────────────

/// The prefab name of a path under `Assets/Prefab/`, without `.prefab`.
pub open spec fn prefab_name(p: Seq<char>) -> Seq<char> {
    let f = without_prefix(p, prefab_dir());
    match strip_suffix(f, ".prefab"@) {
        Some(n) => n,
        None => f,
    }
}

/// The normalized name of a background prefab path.
pub open spec fn background_prefab_key(p: Seq<char>) -> Seq<char> {
    let f = without_prefix(p, bg_dir());
    normalize_bg_name_spec(
        match strip_suffix(f, ".prefab"@) {
            Some(n) => n,
            None => f,
        },
    )
}

fn name_without_dir(p: &[char], dir: &str) -> (r: Vec<char>)
    ensures
        r@ == (match strip_suffix(without_prefix(p@, dir@), ".prefab"@) {
            Some(n) => n,
            None => without_prefix(p@, dir@),
        }),
{
    let f = match strip_prefix_lit(p, dir) {
        Some(f) => f,
        None => copy_range(p, 0, p.len()),
    };
    assert(p@.subrange(0, p@.len() as int) =~= p@);
    match strip_suffix_lit(f.as_slice(), ".prefab") {
        Some(n) => n,
        None => f,
    }
}

/// A prefab's entry in the mesh renderer table.
pub open spec fn visual_entry(s: AssetSource, p: Seq<char>) -> Seq<(Seq<char>, bool)> {
    match source_bytes_spec(s, p) {
        Some(b) => seq![(prefab_name(p), has_mesh_renderer_spec(utf8_lossy_result(b)))],
        None => Seq::empty(),
    }
}

/// A prefab's entry in the alpha blend table: whether its material blends
/// by alpha, by the first eight bytes of the material's GUID.
pub open spec fn blend_entry(
    s: AssetSource,
    blends: Seq<(Seq<char>, bool)>,
    p: Seq<char>,
) -> Seq<(Seq<char>, bool)> {
    match source_bytes_spec(s, p) {
        Some(b) => match prefab_material_guid_spec(utf8_lossy_result(b)) {
            Some(g) => seq![(prefab_name(p), flag_get(blends, guid_prefix_spec(g)) == Some(true))],
            None => Seq::empty(),
        },
        None => Seq::empty(),
    }
}

/// The mesh renderer entries of a listing, in order.
pub open spec fn visual_entries(s: AssetSource, ps: Seq<Seq<char>>) -> Seq<(Seq<char>, bool)>
    decreases ps.len(),
{
    if ps.len() == 0 {
        Seq::empty()
    } else {
        visual_entries(s, ps.drop_last()) + visual_entry(s, ps.last())
    }
}

/// The alpha blend entries of a listing, in order.
pub open spec fn blend_entries(
    s: AssetSource,
    blends: Seq<(Seq<char>, bool)>,
    ps: Seq<Seq<char>>,
) -> Seq<(Seq<char>, bool)>
    decreases ps.len(),
{
    if ps.len() == 0 {
        Seq::empty()
    } else {
        blend_entries(s, blends, ps.drop_last()) + blend_entry(s, blends, ps.last())
    }
}

/// The normalized names of a listing of background prefabs.
pub open spec fn background_keys(ps: Seq<Seq<char>>) -> Seq<Seq<char>> {
    ps.map_values(|p: Seq<char>| background_prefab_key(p))
}

/// Whether each prefab under `Assets/Prefab/` has a mesh renderer.
pub fn build_prefab_basic_visuals_by_name(source: &AssetSource) -> (r: PrefabFlags)
    ensures
        exists|ps: Seq<Seq<char>>|
            is_prefab_listing(source_records(*source), prefab_dir(), ps) && flags_view(r)
                == visual_entries(*source, ps),
{
    let paths = list_pathnames(source, "Assets/Prefab/", ".prefab");
    let ghost pv = strings_view(paths@);
    let mut entries: Vec<(String, bool)> = Vec::new();
    let mut i: usize = 0;
    assert(pv.take(0) =~= Seq::<Seq<char>>::empty());
    while i < paths.len()
        invariant
            pv == strings_view(paths@),
            i <= paths@.len(),
            entries@.map_values(|e: (String, bool)| (e.0@, e.1)) == visual_entries(
                *source,
                pv.take(i as int),
            ),
        decreases paths.len() - i,
    {
        let p = paths[i].as_str();
        assert(p@ == pv[i as int]);
        assert(pv.take(i + 1).drop_last() =~= pv.take(i as int));
        let ghost before = entries@.map_values(|e: (String, bool)| (e.0@, e.1));
        match read_pathname_text(source, p) {
            Some(text) => {
                let pc = str_chars(p);
                let name = name_without_dir(pc.as_slice(), "Assets/Prefab/");
                let mesh = prefab_has_mesh_renderer(text.as_str());
                entries.push((chars_to_string(name.as_slice()), mesh));
                assert(entries@.map_values(|e: (String, bool)| (e.0@, e.1)) =~= before
                    + visual_entry(*source, p@));
            },
            None => {
                assert(before =~= before + visual_entry(*source, p@));
            },
        }
        i = i + 1;
    }
    assert(pv.take(i as int) =~= pv);
    assert(is_prefab_listing(source_records(*source), prefab_dir(), pv));
    PrefabFlags { entries }
}

/// Whether each prefab under `Assets/Prefab/` blends by alpha, given
/// whether each material does (by the first eight bytes of its GUID).
pub fn build_prefab_material_alpha_blends_by_prefab(
    source: &AssetSource,
    material_blends: &PrefabFlags,
) -> (r: PrefabFlags)
    ensures
        exists|ps: Seq<Seq<char>>|
            is_prefab_listing(source_records(*source), prefab_dir(), ps) && flags_view(r)
                == blend_entries(*source, flags_view(*material_blends), ps),
{
    let paths = list_pathnames(source, "Assets/Prefab/", ".prefab");
    let ghost pv = strings_view(paths@);
    let ghost mb = flags_view(*material_blends);
    let mut entries: Vec<(String, bool)> = Vec::new();
    let mut i: usize = 0;
    assert(pv.take(0) =~= Seq::<Seq<char>>::empty());
    while i < paths.len()
        invariant
            pv == strings_view(paths@),
            mb == flags_view(*material_blends),
            i <= paths@.len(),
            entries@.map_values(|e: (String, bool)| (e.0@, e.1)) == blend_entries(
                *source,
                mb,
                pv.take(i as int),
            ),
        decreases paths.len() - i,
    {
        let p = paths[i].as_str();
        assert(p@ == pv[i as int]);
        assert(pv.take(i + 1).drop_last() =~= pv.take(i as int));
        let ghost before = entries@.map_values(|e: (String, bool)| (e.0@, e.1));
        match read_pathname_text(source, p) {
            Some(text) => match prefab_material_guid(text.as_str()) {
                Some(g) => {
                    let gc = str_chars(g.as_str());
                    let prefix = guid_prefix(gc.as_slice());
                    let blend = flag_get_exec(material_blends, prefix.as_slice());
                    let alpha = match blend {
                        Some(b) => b,
                        None => false,
                    };
                    let pc = str_chars(p);
                    let name = name_without_dir(pc.as_slice(), "Assets/Prefab/");
                    entries.push((chars_to_string(name.as_slice()), alpha));
                    assert(entries@.map_values(|e: (String, bool)| (e.0@, e.1)) =~= before
                        + blend_entry(*source, mb, p@));
                },
                None => {
                    assert(before =~= before + blend_entry(*source, mb, p@));
                },
            },
            None => {
                assert(before =~= before + blend_entry(*source, mb, p@));
            },
        }
        i = i + 1;
    }
    assert(pv.take(i as int) =~= pv);
    assert(is_prefab_listing(source_records(*source), prefab_dir(), pv));
    PrefabFlags { entries }
}

/// The normalized names of the background prefabs.
pub fn build_background_prefab_names(source: &AssetSource) -> (r: Vec<String>)
    ensures
        exists|ps: Seq<Seq<char>>|
            is_prefab_listing(source_records(*source), bg_dir(), ps) && strings_view(r@)
                == background_keys(ps),
{
    let paths = list_pathnames(source, "Assets/Resources/environment/background/", ".prefab");
    let ghost pv = strings_view(paths@);
    let mut names: Vec<String> = Vec::new();
    let mut i: usize = 0;
    while i < paths.len()
        invariant
            pv == strings_view(paths@),
            i <= paths@.len(),
            strings_view(names@) == background_keys(pv.take(i as int)),
        decreases paths.len() - i,
    {
        let pc = str_chars(paths[i].as_str());
        assert(pc@ == pv[i as int]);
        let stem = name_without_dir(pc.as_slice(), "Assets/Resources/environment/background/");
        let stem_s = chars_to_string(stem.as_slice());
        let key = normalize_bg_name(stem_s.as_str());
        let ghost before = strings_view(names@);
        names.push(chars_to_string(key.as_slice()));
        assert(key@ == background_prefab_key(pv[i as int]));
        assert(strings_view(names@) =~= before.push(key@));
        assert(background_keys(pv.take(i + 1)) =~= background_keys(pv.take(i as int)).push(
            background_prefab_key(pv[i as int]),
        ));
        i = i + 1;
    }
    assert(pv.take(i as int) =~= pv);
    assert(is_prefab_listing(source_records(*source), bg_dir(), pv));
    names
}

/// A prefab's entry in the material color table, by the first eight
/// bytes of its material's GUID.
pub open spec fn color_entry(
    s: AssetSource,
    colors: Seq<(Seq<char>, [u8; 4])>,
    p: Seq<char>,
) -> Seq<(Seq<char>, [u8; 4])> {
    match source_bytes_spec(s, p) {
        Some(b) => match prefab_material_guid_spec(utf8_lossy_result(b)) {
            Some(g) => match flag_get(colors, guid_prefix_spec(g)) {
                Some(rgba) => seq![(prefab_name(p), rgba)],
                None => Seq::empty(),
            },
            None => Seq::empty(),
        },
        None => Seq::empty(),
    }
}

/// The material color entries of a listing, in order.
pub open spec fn color_entries(
    s: AssetSource,
    colors: Seq<(Seq<char>, [u8; 4])>,
    ps: Seq<Seq<char>>,
) -> Seq<(Seq<char>, [u8; 4])>
    decreases ps.len(),
{
    if ps.len() == 0 {
        Seq::empty()
    } else {
        color_entries(s, colors, ps.drop_last()) + color_entry(s, colors, ps.last())
    }
}

/// The `_Color` of each prefab under `Assets/Prefab/` whose material has
/// one, given the color of each material (by the first eight bytes of its
/// GUID).
pub fn build_prefab_material_colors_by_prefab(
    source: &AssetSource,
    material_colors: &PrefabTable<[u8; 4]>,
) -> (r: PrefabTable<[u8; 4]>)
    ensures
        exists|ps: Seq<Seq<char>>|
            is_prefab_listing(source_records(*source), prefab_dir(), ps) && flags_view(r)
                == color_entries(*source, flags_view(*material_colors), ps),
{
    let paths = list_pathnames(source, "Assets/Prefab/", ".prefab");
    let ghost pv = strings_view(paths@);
    let ghost mc = flags_view(*material_colors);
    let mut entries: Vec<(String, [u8; 4])> = Vec::new();
    let mut i: usize = 0;
    assert(pv.take(0) =~= Seq::<Seq<char>>::empty());
    while i < paths.len()
        invariant
            pv == strings_view(paths@),
            mc == flags_view(*material_colors),
            i <= paths@.len(),
            entries@.map_values(|e: (String, [u8; 4])| (e.0@, e.1)) == color_entries(
                *source,
                mc,
                pv.take(i as int),
            ),
        decreases paths.len() - i,
    {
        let p = paths[i].as_str();
        assert(p@ == pv[i as int]);
        assert(pv.take(i + 1).drop_last() =~= pv.take(i as int));
        let ghost before = entries@.map_values(|e: (String, [u8; 4])| (e.0@, e.1));
        match read_pathname_text(source, p) {
            Some(text) => match prefab_material_guid(text.as_str()) {
                Some(g) => {
                    let gc = str_chars(g.as_str());
                    let prefix = guid_prefix(gc.as_slice());
                    match flag_get_exec(material_colors, prefix.as_slice()) {
                        Some(rgba) => {
                            let pc = str_chars(p);
                            let name = name_without_dir(pc.as_slice(), "Assets/Prefab/");
                            entries.push((chars_to_string(name.as_slice()), rgba));
                            assert(entries@.map_values(|e: (String, [u8; 4])| (e.0@, e.1))
                                =~= before + color_entry(*source, mc, p@));
                        },
                        None => {
                            assert(before =~= before + color_entry(*source, mc, p@));
                        },
                    }
                },
                None => {
                    assert(before =~= before + color_entry(*source, mc, p@));
                },
            },
            None => {
                assert(before =~= before + color_entry(*source, mc, p@));
            },
        }
        i = i + 1;
    }
    assert(pv.take(i as int) =~= pv);
    assert(is_prefab_listing(source_records(*source), prefab_dir(), pv));
    PrefabTable { entries }
}

// ── Object colors ────────────────────────────────────

/// How an object is drawn in the editor: with its prefab material's
/// `_Color`, white when textured without one, or else with a hue (in
/// degrees) that its prefab index picks.
#[derive(Debug, Clone, Copy, PartialEq, Eq)]
pub enum ObjectColor {
    Material([u8; 4]),
    White,
    Hue(i32),
}

/// The hue of an untextured object without a material color:
/// `prefab_index * 47` degrees, taken modulo 360.
pub open spec fn legacy_hue_spec(prefab_index: int) -> int {
    (prefab_index * 47) % 360
}

pub open spec fn object_color_spec(
    colors: Seq<(Seq<char>, [u8; 4])>,
    name: Seq<char>,
    prefab_index: int,
    textured: bool,
) -> ObjectColor {
    match prefab_lookup_spec(colors, name) {
        Some(rgba) => ObjectColor::Material(rgba),
        None => if textured {
            ObjectColor::White
        } else {
            ObjectColor::Hue(legacy_hue_spec(prefab_index) as i32)
        },
    }
}

/// The draw color of an object, given the material colors of the prefabs.
pub fn get_object_color(
    colors: &PrefabTable<[u8; 4]>,
    name: &str,
    prefab_index: i16,
    textured: bool,
) -> (r: ObjectColor)
    ensures
        r == object_color_spec(flags_view(*colors), name@, prefab_index as int, textured),
{
    match prefab_asset_lookup(colors, name) {
        Some(rgba) => ObjectColor::Material(rgba),
        None => if textured {
            ObjectColor::White
        } else {
            let shifted: i32 = (prefab_index as i32) * 47 + 1_800_000;
            let hue = (shifted as u32) % 360;
            assert(shifted as int % 360 == legacy_hue_spec(prefab_index as int)) by {
                assert(1_800_000int == 360 * 5000);
            }
            ObjectColor::Hue(hue as i32)
        },
    }
}

// ── Root scripts and components ──────────────────────

/// A root script that hides its prefab.
pub open spec fn is_skip_render_script_guid(g: Seq<char>) -> bool {
    g == "6229298ca21dd3894003b3802b06d98e"@ || g == "7b438279c3f772954a60174359d89e4c"@
}

/// A root component that keeps its prefab out of the props tint.
pub open spec fn is_skip_tint_component(c: Seq<char>) -> bool {
    c == "PointLightSource"@ || c == "PartSecret"@
}

/// The prefabs (by path, each with the values read from its root) for
/// which one value passes `mark`, as entries set to `true`.
pub open spec fn marked_entries(
    ps: Seq<(Seq<char>, Seq<Seq<char>>)>,
    mark: spec_fn(Seq<char>) -> bool,
) -> Seq<(Seq<char>, bool)>
    decreases ps.len(),
{
    if ps.len() == 0 {
        Seq::empty()
    } else {
        marked_entries(ps.drop_last(), mark) + if exists|j: int|
            0 <= j < ps.last().1.len() && #[trigger] mark(ps.last().1[j]) {
            seq![(prefab_name(ps.last().0), true)]
        } else {
            Seq::empty()
        }
    }
}

pub open spec fn root_values_view(v: Seq<(String, Vec<String>)>) -> Seq<(Seq<char>, Seq<Seq<char>>)> {
    v.map_values(|e: (String, Vec<String>)| (e.0@, strings_view(e.1@)))
}

fn any_skip_render_script(guids: &Vec<String>) -> (r: bool)
    ensures
        r == exists|j: int|
            0 <= j < guids@.len() && #[trigger] is_skip_render_script_guid(guids@[j]@),
{
    let mut j: usize = 0;
    while j < guids.len()
        invariant
            j <= guids@.len(),
            forall|k: int| 0 <= k < j ==> !#[trigger] is_skip_render_script_guid(guids@[k]@),
        decreases guids.len() - j,
    {
        let g = str_chars(guids[j].as_str());
        if eq_lit(g.as_slice(), "6229298ca21dd3894003b3802b06d98e") || eq_lit(
            g.as_slice(),
            "7b438279c3f772954a60174359d89e4c",
        ) {
            assert(is_skip_render_script_guid(guids@[j as int]@));
            return true;
        }
        j = j + 1;
    }
    false
}

fn any_skip_tint_component(suffixes: &Vec<String>) -> (r: bool)
    ensures
        r == exists|j: int|
            0 <= j < suffixes@.len() && #[trigger] is_skip_tint_component(suffixes@[j]@),
{
    let mut j: usize = 0;
    while j < suffixes.len()
        invariant
            j <= suffixes@.len(),
            forall|k: int| 0 <= k < j ==> !#[trigger] is_skip_tint_component(suffixes@[k]@),
        decreases suffixes.len() - j,
    {
        let c = str_chars(suffixes[j].as_str());
        if eq_lit(c.as_slice(), "PointLightSource") || eq_lit(c.as_slice(), "PartSecret") {
            assert(is_skip_tint_component(suffixes@[j as int]@));
            return true;
        }
        j = j + 1;
    }
    false
}

/// The prefabs under `Assets/Prefab/` whose root runs a script that hides
/// them, given for each prefab path the GUIDs of its root's scripts.
pub fn build_prefab_skip_render_by_root_scripts(
    prefab_root_scripts: &Vec<(String, Vec<String>)>,
) -> (r: PrefabFlags)
    ensures
        flags_view(r) == marked_entries(
            root_values_view(prefab_root_scripts@),
            |g: Seq<char>| is_skip_render_script_guid(g),
        ),
{
    let ghost pv = root_values_view(prefab_root_scripts@);
    let ghost mark = |g: Seq<char>| is_skip_render_script_guid(g);
    let mut entries: Vec<(String, bool)> = Vec::new();
    let mut i: usize = 0;
    while i < prefab_root_scripts.len()
        invariant
            pv == root_values_view(prefab_root_scripts@),
            mark == (|g: Seq<char>| is_skip_render_script_guid(g)),
            i <= pv.len(),
            entries@.map_values(|e: (String, bool)| (e.0@, e.1)) == marked_entries(
                pv.take(i as int),
                mark,
            ),
        decreases prefab_root_scripts.len() - i,
    {
        let e = &prefab_root_scripts[i];
        assert(pv.take(i + 1).drop_last() =~= pv.take(i as int));
        assert(pv.take(i + 1).last() == pv[i as int]);
        let ghost before = entries@.map_values(|e: (String, bool)| (e.0@, e.1));
        if any_skip_render_script(&e.1) {
            proof {
                let j = choose|j: int| 0 <= j < e.1@.len() && #[trigger] is_skip_render_script_guid(e.1@[j]@);
                assert(pv[i as int].1[j] == e.1@[j]@);
                assert(mark(pv[i as int].1[j]));
            }
            let pc = str_chars(e.0.as_str());
            let name = name_without_dir(pc.as_slice(), "Assets/Prefab/");
            entries.push((chars_to_string(name.as_slice()), true));
            assert(entries@.map_values(|e: (String, bool)| (e.0@, e.1)) =~= marked_entries(
                pv.take(i + 1),
                mark,
            ));
        } else {
            assert(before =~= marked_entries(pv.take(i + 1), mark));
        }
        i = i + 1;
    }
    assert(pv.take(i as int) =~= pv);
    PrefabTable { entries }
}

/// The prefabs under `Assets/Prefab/` whose root carries a point light or
/// a secret part, given for each prefab path the type-name suffixes of its
/// root's components.
pub fn build_prefab_skip_props_tint_by_root_components(
    prefab_root_components: &Vec<(String, Vec<String>)>,
) -> (r: PrefabFlags)
    ensures
        flags_view(r) == marked_entries(
            root_values_view(prefab_root_components@),
            |c: Seq<char>| is_skip_tint_component(c),
        ),
{
    let ghost pv = root_values_view(prefab_root_components@);
    let ghost mark = |c: Seq<char>| is_skip_tint_component(c);
    let mut entries: Vec<(String, bool)> = Vec::new();
    let mut i: usize = 0;
    while i < prefab_root_components.len()
        invariant
            pv == root_values_view(prefab_root_components@),
            mark == (|c: Seq<char>| is_skip_tint_component(c)),
            i <= pv.len(),
            entries@.map_values(|e: (String, bool)| (e.0@, e.1)) == marked_entries(
                pv.take(i as int),
                mark,
            ),
        decreases prefab_root_components.len() - i,
    {
        let e = &prefab_root_components[i];
        assert(pv.take(i + 1).drop_last() =~= pv.take(i as int));
        assert(pv.take(i + 1).last() == pv[i as int]);
        let ghost before = entries@.map_values(|e: (String, bool)| (e.0@, e.1));
        if any_skip_tint_component(&e.1) {
            proof {
                let j = choose|j: int| 0 <= j < e.1@.len() && #[trigger] is_skip_tint_component(e.1@[j]@);
                assert(pv[i as int].1[j] == e.1@[j]@);
                assert(mark(pv[i as int].1[j]));
            }
            let pc = str_chars(e.0.as_str());
            let name = name_without_dir(pc.as_slice(), "Assets/Prefab/");
            entries.push((chars_to_string(name.as_slice()), true));
            assert(entries@.map_values(|e: (String, bool)| (e.0@, e.1)) =~= marked_entries(
                pv.take(i + 1),
                mark,
            ));
        } else {
            assert(before =~= marked_entries(pv.take(i + 1), mark));
        }
        i = i + 1;
    }
    assert(pv.take(i as int) =~= pv);
    PrefabTable { entries }
}

// ── Props alpha ──────────────────────────────────────

/// Alpha statistics of a props sprite: the largest alpha, and how many
/// pixels have alpha above zero, at least 128 and at least 200.
pub type AlphaStats = (u8, u64, u64, u64);

/// Whether a props sprite is only softly transparent: some pixel shows,
/// none reaches alpha 128. A sprite without statistics is not.
pub open spec fn soft_alpha_spec(stats: Option<AlphaStats>) -> bool {
    match stats {
        Some((max_alpha, _, alpha_ge_128, _)) => max_alpha > 0 && alpha_ge_128 == 0,
        None => false,
    }
}

pub fn props_sprite_has_only_soft_alpha(stats: Option<AlphaStats>) -> (r: bool)
    ensures
        r == soft_alpha_spec(stats),
{
    match stats {
        Some((max_alpha, _, alpha_ge_128, _)) => max_alpha > 0 && alpha_ge_128 == 0,
        None => false,
    }
}

/// The sprites of the generic props sheet with only soft alpha, in order.
pub open spec fn soft_alpha_entries(sprites: Seq<(Seq<char>, Seq<char>, Option<AlphaStats>)>) -> Seq<
    (Seq<char>, bool),
>
    decreases sprites.len(),
{
    if sprites.len() == 0 {
        Seq::empty()
    } else {
        let s = sprites.last();
        soft_alpha_entries(sprites.drop_last()) + if s.1 == "Props_Generic_Sheet_01.png"@
            && soft_alpha_spec(s.2) {
            seq![(s.0, true)]
        } else {
            Seq::empty()
        }
    }
}

pub open spec fn sprite_stats_view(v: Seq<(String, String, Option<AlphaStats>)>) -> Seq<
    (Seq<char>, Seq<char>, Option<AlphaStats>),
> {
    v.map_values(|e: (String, String, Option<AlphaStats>)| (e.0@, e.1@, e.2))
}

/// The props sprites that keep their material, given each sprite's name,
/// atlas and alpha statistics.
pub fn build_props_alpha_skip_names(sprites: &Vec<(String, String, Option<AlphaStats>)>) -> (r:
    PrefabFlags)
    ensures
        flags_view(r) == soft_alpha_entries(sprite_stats_view(sprites@)),
{
    let ghost sv = sprite_stats_view(sprites@);
    let mut entries: Vec<(String, bool)> = Vec::new();
    let mut i: usize = 0;
    while i < sprites.len()
        invariant
            sv == sprite_stats_view(sprites@),
            i <= sv.len(),
            entries@.map_values(|e: (String, bool)| (e.0@, e.1)) == soft_alpha_entries(
                sv.take(i as int),
            ),
        decreases sprites.len() - i,
    {
        let e = &sprites[i];
        assert(sv.take(i + 1).drop_last() =~= sv.take(i as int));
        assert(sv.take(i + 1).last() == sv[i as int]);
        let ghost before = entries@.map_values(|e: (String, bool)| (e.0@, e.1));
        let atlas = str_chars(e.1.as_str());
        if eq_lit(atlas.as_slice(), "Props_Generic_Sheet_01.png") && props_sprite_has_only_soft_alpha(
            e.2,
        ) {
            entries.push((e.0.clone(), true));
            assert(entries@.map_values(|e: (String, bool)| (e.0@, e.1)) =~= soft_alpha_entries(
                sv.take(i + 1),
            ));
        } else {
            assert(before =~= soft_alpha_entries(sv.take(i + 1)));
        }
        i = i + 1;
    }
    assert(sv.take(i as int) =~= sv);
    PrefabTable { entries }
}

// ── Backdrop and ground sprites ──────────────────────

/// What the sky and ground rules read of a background sprite.
pub struct BgSpriteTraits {
    pub name: String,
    pub parent_group: String,
    pub layer: BgLayer,
    pub sky_texture: Option<String>,
}

/// A near-layer fill or base sprite of a `BGLayerNear` group.
pub open spec fn near_fill_ground_spec(s: BgSpriteTraits) -> bool {
    let n = normalize_bg_name_spec(s.name@);
    let g = normalize_bg_name_spec(s.parent_group@);
    s.layer == BgLayer::Near && starts_with(g, "bglayernear"@) && (contains(n, "near_fill"@)
        || contains(n, "near_base"@))
}

pub fn is_near_fill_ground_sprite(sprite: &BgSpriteTraits) -> (r: bool)
    ensures
        r == near_fill_ground_spec(*sprite),
{
    if !matches!(sprite.layer, BgLayer::Near) {
        return false;
    }
    let n = normalize_bg_name(sprite.name.as_str());
    let g = normalize_bg_name(sprite.parent_group.as_str());
    starts_with_lit(g.as_slice(), "bglayernear") && (contains_lit(n.as_slice(), "near_fill")
        || contains_lit(n.as_slice(), "near_base"))
}

/// The `Beach` sprite of a ground-layer `BeachLayer` group.
pub open spec fn beach_ground_spec(s: BgSpriteTraits) -> bool {
    s.layer == BgLayer::Ground && normalize_bg_name_spec(s.parent_group@) == "beachlayer"@
        && normalize_bg_name_spec(s.name@) == "beach"@
}

pub fn is_beach_ground_sprite(sprite: &BgSpriteTraits) -> (r: bool)
    ensures
        r == beach_ground_spec(*sprite),
{
    if !matches!(sprite.layer, BgLayer::Ground) {
        return false;
    }
    let g = normalize_bg_name(sprite.parent_group.as_str());
    let n = normalize_bg_name(sprite.name.as_str());
    eq_lit(g.as_slice(), "beachlayer") && eq_lit(n.as_slice(), "beach")
}

/// A ground-layer sprite named `Grass_fill` or `Grass_Fill`.
pub open spec fn grass_fill_ground_spec(s: BgSpriteTraits) -> bool {
    s.layer == BgLayer::Ground && (s.name@ == "Grass_fill"@ || s.name@ == "Grass_Fill"@)
}

pub fn is_grass_fill_ground_sprite(sprite: &BgSpriteTraits) -> (r: bool)
    ensures
        r == grass_fill_ground_spec(*sprite),
{
    let n = str_chars(sprite.name.as_str());
    matches!(sprite.layer, BgLayer::Ground) && (eq_lit(n.as_slice(), "Grass_fill") || eq_lit(
        n.as_slice(),
        "Grass_Fill",
    ))
}

/// A sky sprite: on the sky layer, with a sky texture, or in a
/// `Background_Sky` group.
pub open spec fn sky_backdrop_spec(s: BgSpriteTraits) -> bool {
    s.layer == BgLayer::Sky || s.sky_texture is Some || contains(
        s.parent_group@,
        "Background_Sky"@,
    )
}

pub fn is_sky_backdrop_sprite(sprite: &BgSpriteTraits) -> (r: bool)
    ensures
        r == sky_backdrop_spec(*sprite),
{
    let g = str_chars(sprite.parent_group.as_str());
    matches!(sprite.layer, BgLayer::Sky) || sprite.sky_texture.is_some() || contains_lit(
        g.as_slice(),
        "Background_Sky",
    )
}

/// A sprite that may carry a theme's ground color.
pub open spec fn ground_color_candidate_spec(s: BgSpriteTraits) -> bool {
    let n = normalize_bg_name_spec(s.name@);
    let g = normalize_bg_name_spec(s.parent_group@);
    s.layer == BgLayer::Ground || contains(n, "grass_fill"@) || contains(n, "near_fill"@) || n
        == "fill"@ || contains(n, "ground"@) || contains(g, "ground"@) || contains(g, "near"@)
}

pub fn is_ground_color_candidate_sprite(sprite: &BgSpriteTraits) -> (r: bool)
    ensures
        r == ground_color_candidate_spec(*sprite),
{
    let n = normalize_bg_name(sprite.name.as_str());
    let g = normalize_bg_name(sprite.parent_group.as_str());
    matches!(sprite.layer, BgLayer::Ground) || contains_lit(n.as_slice(), "grass_fill")
        || contains_lit(n.as_slice(), "near_fill") || eq_lit(n.as_slice(), "fill")
        || contains_lit(n.as_slice(), "ground") || contains_lit(g.as_slice(), "ground")
        || contains_lit(g.as_slice(), "near")
}

// ── Rendering rules ──────────────────────────────────

/// The per-prefab tables the rendering rules read. `skip_render_by_root_scripts`
/// lists the prefabs whose root runs a script that hides it,
/// `skip_props_tint_by_root_components` those whose root carries a point
/// light or a secret part, and `props_alpha_skip_names` the props sprites
/// with only soft alpha.
pub struct PrefabRules {
    pub basic_visuals: PrefabFlags,
    pub background_names: Vec<String>,
    pub skip_render_by_root_scripts: PrefabFlags,
    pub skip_props_tint_by_root_components: PrefabFlags,
    pub props_alpha_skip_names: PrefabFlags,
    pub alpha_blends: PrefabFlags,
}

/// Whether an object is not drawn: a prefab without a mesh renderer, a
/// background prefab container, or a prefab whose root script hides it.
pub open spec fn should_skip_render_spec(rules: PrefabRules, name: Seq<char>) -> bool {
    prefab_lookup_spec(flags_view(rules.basic_visuals), name) == Some(false)
        || strings_view(rules.background_names@).contains(normalize_bg_name_spec(name))
        || prefab_lookup_spec(flags_view(rules.skip_render_by_root_scripts), name) is Some
}

/// Whether this object should be skipped during rendering.
pub fn should_skip_render(rules: &PrefabRules, name: &str) -> (r: bool)
    ensures
        r == should_skip_render_spec(*rules, name@),
{
    if prefab_asset_lookup(&rules.basic_visuals, name) == Some(false) {
        return true;
    }
    let key = normalize_bg_name(name);
    let ghost bn = strings_view(rules.background_names@);
    let mut i: usize = 0;
    while i < rules.background_names.len()
        invariant
            bn == strings_view(rules.background_names@),
            key@ == normalize_bg_name_spec(name@),
            i <= bn.len(),
            forall|k: int| 0 <= k < i ==> bn[k] != key@,
        decreases rules.background_names.len() - i,
    {
        let c = str_chars(rules.background_names[i].as_str());
        assert(c@ == bn[i as int]);
        if chars_eq(c.as_slice(), key.as_slice()) {
            assert(bn.contains(key@));
            return true;
        }
        i = i + 1;
    }
    prefab_asset_lookup(&rules.skip_render_by_root_scripts, name).is_some()
}

/// Sprites that keep their original material and are not tinted by the
/// night or morning props materials.
pub open spec fn skip_props_tint_spec(rules: PrefabRules, name: Seq<char>) -> bool {
    sprite_lookup_spec(flags_view(rules.props_alpha_skip_names), name) is Some
        || prefab_lookup_spec(flags_view(rules.skip_props_tint_by_root_components), name) is Some
}

pub fn skip_props_tint(rules: &PrefabRules, name: &str) -> (r: bool)
    ensures
        r == skip_props_tint_spec(*rules, name@),
{
    sprite_asset_lookup(&rules.props_alpha_skip_names, name).is_some() || prefab_asset_lookup(
        &rules.skip_props_tint_by_root_components,
        name,
    ).is_some()
}

/// Whether the props tint of a prefab blends by alpha.
pub fn props_tint_is_alpha_blend(rules: &PrefabRules, prefab_name: &str) -> (r: bool)
    ensures
        r == (prefab_lookup_spec(flags_view(rules.alpha_blends), prefab_name@) == Some(true)),
{
    match prefab_asset_lookup(&rules.alpha_blends, prefab_name) {
        Some(b) => b,
        None => false,
    }
}


/// The theme of each background prefab stem (normalized, without its
/// `background_` prefix), as the game's background prefabs give it.
pub proof fn lemma_background_stem_themes()
    ensures
        theme_from_background_stem_spec("cave_01_set_1"@) == Some("Cave"@),
        theme_from_background_stem_spec("forest_01_set_1"@) == Some("Morning"@),
        theme_from_background_stem_spec("halloween"@) == Some("Halloween"@),
        theme_from_background_stem_spec("jungle_01_set"@) == Some("Jungle"@),
        theme_from_background_stem_spec("mm_01_set"@) == Some("Maya"@),
        theme_from_background_stem_spec("mm_cave_01_set"@) == Some("MayaCave"@),
        theme_from_background_stem_spec("mm_cave_01_set_dark"@) == Some("MayaCaveDark"@),
        theme_from_background_stem_spec("mm_cave_02_set_dark"@) == Some("MayaCave2Dark"@),
        theme_from_background_stem_spec("mm_high_01_set"@) == Some("MayaHigh"@),
        theme_from_background_stem_spec("mm_temple_01_set_01"@) == Some("MayaTemple"@),
        theme_from_background_stem_spec("night_01_set_1"@) == Some("Night"@),
        theme_from_background_stem_spec("plateau_01_set"@) == Some("Plateau"@),
{
    reveal_strlit("background_");
    reveal_strlit("cave_01_set_1");
    reveal_strlit("forest_01_set_1");
    reveal_strlit("halloween");
    reveal_strlit("jungle_01_set");
    reveal_strlit("mm_01_set");
    reveal_strlit("mm_cave_01_set");
    reveal_strlit("mm_cave_01_set_dark");
    reveal_strlit("mm_cave_02_set_dark");
    reveal_strlit("mm_high_01_set");
    reveal_strlit("mm_temple_01_set_01");
    reveal_strlit("night_01_set_1");
    reveal_strlit("plateau_01_set");
    assert(theme_from_background_stem_spec("cave_01_set_1"@) == Some("Cave"@)) by {
        assert(strip_prefix("cave_01_set_1"@, "background_"@) is None) by { assert("cave_01_set_1"@.subrange(0, 11)[0] != "background_"@[0]); };
    }
    assert(theme_from_background_stem_spec("forest_01_set_1"@) == Some("Morning"@)) by {
        assert(strip_prefix("forest_01_set_1"@, "background_"@) is None) by { assert("forest_01_set_1"@.subrange(0, 11)[0] != "background_"@[0]); };
        assert("cave_01_set_1"@.len() != "forest_01_set_1"@.len());
    }
    assert(theme_from_background_stem_spec("halloween"@) == Some("Halloween"@)) by {
        assert(strip_prefix("halloween"@, "background_"@) is None);
        assert("cave_01_set_1"@.len() != "halloween"@.len());
        assert("forest_01_set_1"@.len() != "halloween"@.len());
    }
    assert(theme_from_background_stem_spec("jungle_01_set"@) == Some("Jungle"@)) by {
        assert(strip_prefix("jungle_01_set"@, "background_"@) is None) by { assert("jungle_01_set"@.subrange(0, 11)[0] != "background_"@[0]); };
        assert("cave_01_set_1"@[0] != "jungle_01_set"@[0]);
        assert("forest_01_set_1"@.len() != "jungle_01_set"@.len());
        assert("halloween"@.len() != "jungle_01_set"@.len());
    }
    assert(theme_from_background_stem_spec("mm_01_set"@) == Some("Maya"@)) by {
        assert(strip_prefix("mm_01_set"@, "background_"@) is None);
        assert("cave_01_set_1"@.len() != "mm_01_set"@.len());
        assert("forest_01_set_1"@.len() != "mm_01_set"@.len());
        assert("halloween"@[0] != "mm_01_set"@[0]);
        assert("jungle_01_set"@.len() != "mm_01_set"@.len());
    }
    assert(theme_from_background_stem_spec("mm_cave_01_set"@) == Some("MayaCave"@)) by {
        assert(strip_prefix("mm_cave_01_set"@, "background_"@) is None) by { assert("mm_cave_01_set"@.subrange(0, 11)[0] != "background_"@[0]); };
        assert("cave_01_set_1"@.len() != "mm_cave_01_set"@.len());
        assert("forest_01_set_1"@.len() != "mm_cave_01_set"@.len());
        assert("halloween"@.len() != "mm_cave_01_set"@.len());
        assert("jungle_01_set"@.len() != "mm_cave_01_set"@.len());
        assert("mm_01_set"@.len() != "mm_cave_01_set"@.len());
    }
    assert(theme_from_background_stem_spec("mm_cave_01_set_dark"@) == Some("MayaCaveDark"@)) by {
        assert(strip_prefix("mm_cave_01_set_dark"@, "background_"@) is None) by { assert("mm_cave_01_set_dark"@.subrange(0, 11)[0] != "background_"@[0]); };
        assert("cave_01_set_1"@.len() != "mm_cave_01_set_dark"@.len());
        assert("forest_01_set_1"@.len() != "mm_cave_01_set_dark"@.len());
        assert("halloween"@.len() != "mm_cave_01_set_dark"@.len());
        assert("jungle_01_set"@.len() != "mm_cave_01_set_dark"@.len());
        assert("mm_01_set"@.len() != "mm_cave_01_set_dark"@.len());
        assert("mm_cave_01_set"@.len() != "mm_cave_01_set_dark"@.len());
    }
    assert(theme_from_background_stem_spec("mm_cave_02_set_dark"@) == Some("MayaCave2Dark"@)) by {
        assert(strip_prefix("mm_cave_02_set_dark"@, "background_"@) is None) by { assert("mm_cave_02_set_dark"@.subrange(0, 11)[0] != "background_"@[0]); };
        assert("cave_01_set_1"@.len() != "mm_cave_02_set_dark"@.len());
        assert("forest_01_set_1"@.len() != "mm_cave_02_set_dark"@.len());
        assert("halloween"@.len() != "mm_cave_02_set_dark"@.len());
        assert("jungle_01_set"@.len() != "mm_cave_02_set_dark"@.len());
        assert("mm_01_set"@.len() != "mm_cave_02_set_dark"@.len());
        assert("mm_cave_01_set"@.len() != "mm_cave_02_set_dark"@.len());
        assert("mm_cave_01_set_dark"@[9] != "mm_cave_02_set_dark"@[9]);
    }
    assert(theme_from_background_stem_spec("mm_high_01_set"@) == Some("MayaHigh"@)) by {
        assert(strip_prefix("mm_high_01_set"@, "background_"@) is None) by { assert("mm_high_01_set"@.subrange(0, 11)[0] != "background_"@[0]); };
        assert("cave_01_set_1"@.len() != "mm_high_01_set"@.len());
        assert("forest_01_set_1"@.len() != "mm_high_01_set"@.len());
        assert("halloween"@.len() != "mm_high_01_set"@.len());
        assert("jungle_01_set"@.len() != "mm_high_01_set"@.len());
        assert("mm_01_set"@.len() != "mm_high_01_set"@.len());
        assert("mm_cave_01_set"@[3] != "mm_high_01_set"@[3]);
        assert("mm_cave_01_set_dark"@.len() != "mm_high_01_set"@.len());
        assert("mm_cave_02_set_dark"@.len() != "mm_high_01_set"@.len());
    }
    assert(theme_from_background_stem_spec("mm_temple_01_set_01"@) == Some("MayaTemple"@)) by {
        assert(strip_prefix("mm_temple_01_set_01"@, "background_"@) is None) by { assert("mm_temple_01_set_01"@.subrange(0, 11)[0] != "background_"@[0]); };
        assert("cave_01_set_1"@.len() != "mm_temple_01_set_01"@.len());
        assert("forest_01_set_1"@.len() != "mm_temple_01_set_01"@.len());
        assert("halloween"@.len() != "mm_temple_01_set_01"@.len());
        assert("jungle_01_set"@.len() != "mm_temple_01_set_01"@.len());
        assert("mm_01_set"@.len() != "mm_temple_01_set_01"@.len());
        assert("mm_cave_01_set"@.len() != "mm_temple_01_set_01"@.len());
        assert("mm_cave_01_set_dark"@[3] != "mm_temple_01_set_01"@[3]);
        assert("mm_cave_02_set_dark"@[3] != "mm_temple_01_set_01"@[3]);
        assert("mm_high_01_set"@.len() != "mm_temple_01_set_01"@.len());
    }
    assert(theme_from_background_stem_spec("night_01_set_1"@) == Some("Night"@)) by {
        assert(strip_prefix("night_01_set_1"@, "background_"@) is None) by { assert("night_01_set_1"@.subrange(0, 11)[0] != "background_"@[0]); };
        assert("cave_01_set_1"@.len() != "night_01_set_1"@.len());
        assert("forest_01_set_1"@.len() != "night_01_set_1"@.len());
        assert("halloween"@.len() != "night_01_set_1"@.len());
        assert("jungle_01_set"@.len() != "night_01_set_1"@.len());
        assert("mm_01_set"@.len() != "night_01_set_1"@.len());
        assert("mm_cave_01_set"@[0] != "night_01_set_1"@[0]);
        assert("mm_cave_01_set_dark"@.len() != "night_01_set_1"@.len());
        assert("mm_cave_02_set_dark"@.len() != "night_01_set_1"@.len());
        assert("mm_high_01_set"@[0] != "night_01_set_1"@[0]);
        assert("mm_temple_01_set_01"@.len() != "night_01_set_1"@.len());
    }
    assert(theme_from_background_stem_spec("plateau_01_set"@) == Some("Plateau"@)) by {
        assert(strip_prefix("plateau_01_set"@, "background_"@) is None) by { assert("plateau_01_set"@.subrange(0, 11)[0] != "background_"@[0]); };
        assert("cave_01_set_1"@.len() != "plateau_01_set"@.len());
        assert("forest_01_set_1"@.len() != "plateau_01_set"@.len());
        assert("halloween"@.len() != "plateau_01_set"@.len());
        assert("jungle_01_set"@.len() != "plateau_01_set"@.len());
        assert("mm_01_set"@.len() != "plateau_01_set"@.len());
        assert("mm_cave_01_set"@[0] != "plateau_01_set"@[0]);
        assert("mm_cave_01_set_dark"@.len() != "plateau_01_set"@.len());
        assert("mm_cave_02_set_dark"@.len() != "plateau_01_set"@.len());
        assert("mm_high_01_set"@[0] != "plateau_01_set"@[0]);
        assert("mm_temple_01_set_01"@.len() != "plateau_01_set"@.len());
        assert("night_01_set_1"@[0] != "plateau_01_set"@[0]);
    }
}

/// The theme of each cloud set prefab stem (normalized).
pub proof fn lemma_cloud_stem_themes()
    ensures
        theme_from_cloud_stem_spec("cloudhalloweenset"@) == Some("Halloween"@),
        theme_from_cloud_stem_spec("cloudjungleset"@) == Some("Jungle"@),
        theme_from_cloud_stem_spec("cloudlpaset"@) == Some("Maya"@),
        theme_from_cloud_stem_spec("cloudnightset"@) == Some("Night"@),
        theme_from_cloud_stem_spec("cloudplateauset"@) == Some("Plateau"@),
{
    reveal_strlit("cloudhalloweenset");
    reveal_strlit("cloudjungleset");
    reveal_strlit("cloudlpaset");
    reveal_strlit("cloudnightset");
    reveal_strlit("cloudplateauset");
    assert(theme_from_cloud_stem_spec("cloudhalloweenset"@) == Some("Halloween"@)) by {
    }
    assert(theme_from_cloud_stem_spec("cloudjungleset"@) == Some("Jungle"@)) by {
        assert("cloudhalloweenset"@.len() != "cloudjungleset"@.len());
    }
    assert(theme_from_cloud_stem_spec("cloudlpaset"@) == Some("Maya"@)) by {
        assert("cloudhalloweenset"@.len() != "cloudlpaset"@.len());
        assert("cloudjungleset"@.len() != "cloudlpaset"@.len());
    }
    assert(theme_from_cloud_stem_spec("cloudnightset"@) == Some("Night"@)) by {
        assert("cloudhalloweenset"@.len() != "cloudnightset"@.len());
        assert("cloudjungleset"@.len() != "cloudnightset"@.len());
        assert("cloudlpaset"@.len() != "cloudnightset"@.len());
    }
    assert(theme_from_cloud_stem_spec("cloudplateauset"@) == Some("Plateau"@)) by {
        assert("cloudhalloweenset"@.len() != "cloudplateauset"@.len());
        assert("cloudjungleset"@.len() != "cloudplateauset"@.len());
        assert("cloudlpaset"@.len() != "cloudplateauset"@.len());
        assert("cloudnightset"@.len() != "cloudplateauset"@.len());
    }
}

/// The themes from most to least specific, as the game ranks them.
pub proof fn lemma_theme_priority_order()
    ensures
        priority_theme(0) == "MayaCave2Dark"@,
        priority_theme(1) == "MayaCaveDark"@,
        priority_theme(2) == "MayaCave"@,
        priority_theme(3) == "MayaTemple"@,
        priority_theme(4) == "MayaHigh"@,
        priority_theme(5) == "Maya"@,
        priority_theme(6) == "Jungle"@,
        priority_theme(7) == "Plateau"@,
        priority_theme(8) == "Morning"@,
        priority_theme(9) == "Night"@,
        priority_theme(10) == "Halloween"@,
        priority_theme(11) == "Cave"@,
{
}


/// A normalized name reads as a background exactly when it starts with
/// `background` or `bg_`.
pub proof fn lemma_background_names(n: Seq<char>)
    ensures
        looks_like_background_spec(n) == (starts_with(n, "background"@) || starts_with(n, "bg_"@)),
{
    reveal_strlit("background_");
    reveal_strlit("background");
    if starts_with(n, "background_"@) {
        assert(n.subrange(0, 10) =~= n.subrange(0, 11).subrange(0, 10));
        assert("background_"@.subrange(0, 10) =~= "background"@);
    }
}

} // verus!
