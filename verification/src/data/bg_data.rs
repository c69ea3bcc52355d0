//! Background data: parallax layers, the atlas of each background material
//! (from the texture loader prefab) and the lists of background atlases and
//! sky textures among the project's `Texture2D` assets.

use vstd::prelude::*;
use crate::data::assets::atlas_materials::{guid_prefix, guid_prefix_spec, last_value};
use crate::data::assets::embedded::{list_pathnames, source_records, AssetSource};
use crate::data::assets::unitypackage_loader::listed;
use crate::order::{sorted_insert, strictly_sorted};
use crate::text::{
    chars_eq, chars_to_string, contains, contains_lit, ends_with, ends_with_lit, eq_lit, find,
    find_lit, lines, lower, lower_chars, rfind, rfind_lit, split_lines, starts_with,
    starts_with_lit, str_chars, strings_view, strip_prefix, strip_prefix_lit, trim, trim_chars, vv,
};

verus! {

// ── Layers ───────────────────────────────────────────

/// Parallax layer of a background sprite.
#[derive(Debug, Clone, Copy, PartialEq, Eq)]
pub enum BgLayer {
    Sky,
    Camera,
    Further,
    Far,
    Near,
    Ground,
    Foreground,
}

pub open spec fn order_spec(l: BgLayer) -> int {
    match l {
        BgLayer::Sky => 0,
        BgLayer::Camera => 1,
        BgLayer::Further => 2,
        BgLayer::Far => 3,
        BgLayer::Near => 4,
        BgLayer::Ground => 5,
        BgLayer::Foreground => 20,
    }
}

impl BgLayer {
    /// Render order: lower is drawn first, further back.
    pub fn order(&self) -> (r: i32)
        ensures
            r == order_spec(*self),
    {
        match self {
            BgLayer::Sky => 0,
            BgLayer::Camera => 1,
            BgLayer::Further => 2,
            BgLayer::Far => 3,
            BgLayer::Near => 4,
            BgLayer::Ground => 5,
            BgLayer::Foreground => 20,
        }
    }
}

/// The layer an explicit parallax tag names.
pub open spec fn explicit_parallax_layer_spec(tag: Seq<char>) -> Option<BgLayer> {
    if tag == "ParallaxLayerSky"@ {
        Some(BgLayer::Sky)
    } else if tag == "ParallaxLayerFixedFollowCamera"@ {
        Some(BgLayer::Camera)
    } else if tag == "ParallaxLayerFurther"@ {
        Some(BgLayer::Further)
    } else if tag == "ParallaxLayerFar"@ {
        Some(BgLayer::Far)
    } else if tag == "ParallaxLayerNear"@ {
        Some(BgLayer::Near)
    } else if tag == "ParallaxLayerForeground"@ {
        Some(BgLayer::Foreground)
    } else {
        None
    }
}

pub fn explicit_parallax_layer(tag: &str) -> (r: Option<BgLayer>)
    ensures
        r == explicit_parallax_layer_spec(tag@),
{
    let t = str_chars(tag);
    if eq_lit(t.as_slice(), "ParallaxLayerSky") {
        Some(BgLayer::Sky)
    } else if eq_lit(t.as_slice(), "ParallaxLayerFixedFollowCamera") {
        Some(BgLayer::Camera)
    } else if eq_lit(t.as_slice(), "ParallaxLayerFurther") {
        Some(BgLayer::Further)
    } else if eq_lit(t.as_slice(), "ParallaxLayerFar") {
        Some(BgLayer::Far)
    } else if eq_lit(t.as_slice(), "ParallaxLayerNear") {
        Some(BgLayer::Near)
    } else if eq_lit(t.as_slice(), "ParallaxLayerForeground") {
        Some(BgLayer::Foreground)
    } else {
        None
    }
}

/// The layer of a group: its explicit parallax tag, else the ground.
pub fn classify_group_layer(tag: &str) -> (r: BgLayer)
    ensures
        r == (match explicit_parallax_layer_spec(tag@) {
            Some(l) => l,
            None => BgLayer::Ground,
        }),
{
    match explicit_parallax_layer(tag) {
        Some(l) => l,
        None => BgLayer::Ground,
    }
}

// ── Texture loader materials ─────────────────────────

/// Length of the run of `s` before its first `,` or `}`.
pub open spec fn field_end(s: Seq<char>) -> nat
    decreases s.len(),
{
    if s.len() == 0 || s[0] == ',' || s[0] == '}' {
        0
    } else {
        1 + field_end(s.drop_first())
    }
}

/// The value after the first `key` of a line, up to `,` or `}`, trimmed.
pub open spec fn delimited_value(l: Seq<char>, key: Seq<char>) -> Option<Seq<char>> {
    match find(l, key) {
        Some(p) => {
            let tail = l.skip(p + key.len());
            Some(trim(tail.take(field_end(tail) as int)))
        },
        None => None,
    }
}

fn field_end_exec(s: &[char], start: usize) -> (r: usize)
    requires
        start <= s@.len(),
    ensures
        r == field_end(s@.skip(start as int)),
        start + r <= s@.len(),
{
    let mut i: usize = start;
    while i < s.len() && s[i] != ',' && s[i] != '}'
        invariant
            start <= i <= s@.len(),
            forall|m: int| start <= m < i ==> s@[m] != ',' && s@[m] != '}',
        decreases s.len() - i,
    {
        i = i + 1;
    }
    proof {
        lemma_field_end(s@, start as int, i as int);
    }
    i - start
}

proof fn lemma_field_end(s: Seq<char>, start: int, i: int)
    requires
        0 <= start <= i <= s.len(),
        forall|m: int| start <= m < i ==> s[m] != ',' && s[m] != '}',
        i < s.len() ==> s[i] == ',' || s[i] == '}',
    ensures
        field_end(s.skip(start)) == i - start,
    decreases i - start,
{
    let t = s.skip(start);
    if start == i {
        if t.len() > 0 {
            assert(t[0] == s[i]);
        }
    } else {
        assert(t[0] == s[start]);
        assert(t.drop_first() =~= s.skip(start + 1));
        lemma_field_end(s, start + 1, i);
    }
}

/// The value after the first `key` of a line, up to `,` or `}`, trimmed.
pub fn delimited_value_of(l: &[char], key: &str) -> (r: Option<Vec<char>>)
    ensures
        r matches Some(v) ==> delimited_value(l@, key@) == Some(v@),
        r is None ==> delimited_value(l@, key@) is None,
{
    let k = str_chars(key);
    match find_lit(l, key) {
        Some(p) => {
            let ll = l.len();
            assert(p + k@.len() <= ll);
            let start = p + k.len();
            let n = field_end_exec(l, start);
            let mut v: Vec<char> = Vec::new();
            let mut i: usize = 0;
            while i < n
                invariant
                    ll == l@.len(),
                    start + n <= l@.len(),
                    i <= n,
                    v@ =~= l@.skip(start as int).take(i as int),
                decreases n - i,
            {
                v.push(l[start + i]);
                i = i + 1;
            }
            Some(trim_chars(v.as_slice()))
        },
        None => None,
    }
}

/// State of the texture loader scan after the first `n` lines: the GUID
/// prefix of the pending `- material:` entry and the pairs found so far.
pub open spec fn loader_scan(ls: Seq<Seq<char>>, n: nat) -> (
    Option<Seq<char>>,
    Seq<(Seq<char>, Seq<char>)>,
)
    decreases n,
{
    if n == 0 {
        (None, Seq::empty())
    } else {
        let (cur, found) = loader_scan(ls, (n - 1) as nat);
        let t = trim(ls[n - 1]);
        if starts_with(t, "- material:"@) {
            (
                match delimited_value(t, "guid: "@) {
                    Some(g) => Some(guid_prefix_spec(g)),
                    None => None,
                },
                found,
            )
        } else {
            match (strip_prefix(t, "assetName: "@), cur) {
                (Some(a), Some(g)) => (None, found.push((g, trim(a)))),
                _ => (cur, found),
            }
        }
    }
}

/// The (material GUID prefix, asset name) pairs of the texture loader
/// prefab, in order; a later pair for the same key replaces an earlier one.
pub open spec fn textureloader_spec(raw: Seq<char>) -> Seq<(Seq<char>, Seq<char>)> {
    loader_scan(lines(raw), lines(raw).len()).1
}

/// The background atlas of each material GUID prefix.
pub struct TextureLoaderTable {
    pub entries: Vec<(String, String)>,
}

pub open spec fn loader_view(t: TextureLoaderTable) -> Seq<(Seq<char>, Seq<char>)> {
    t.entries@.map_values(|e: (String, String)| (e.0@, e.1@))
}

/// Reads the (material GUID prefix, asset name) pairs of the texture
/// loader prefab.
pub fn load_textureloader_materials(raw: &str) -> (r: TextureLoaderTable)
    ensures
        loader_view(r) == textureloader_spec(raw@),
{
    let t = str_chars(raw);
    let ls = split_lines(t.as_slice());
    let ghost gl = lines(raw@);
    let mut entries: Vec<(String, String)> = Vec::new();
    let mut current: Option<Vec<char>> = None;
    let mut j: usize = 0;
    while j < ls.len()
        invariant
            vv(ls@) == gl,
            j <= ls@.len(),
            loader_scan(gl, j as nat).0 == (match current {
                Some(g) => Some(g@),
                None => None,
            }),
            loader_scan(gl, j as nat).1 == entries@.map_values(
                |e: (String, String)| (e.0@, e.1@),
            ),
        decreases ls.len() - j,
    {
        let tr = trim_chars(ls[j].as_slice());
        assert(tr@ == trim(gl[j as int]));
        let ghost before = entries@.map_values(|e: (String, String)| (e.0@, e.1@));
        if starts_with_lit(tr.as_slice(), "- material:") {
            current = match delimited_value_of(tr.as_slice(), "guid: ") {
                Some(g) => Some(guid_prefix(g.as_slice())),
                None => None,
            };
        } else {
            match strip_prefix_lit(tr.as_slice(), "assetName: ") {
                Some(a) => match current {
                    Some(g) => {
                        let name = trim_chars(a.as_slice());
                        let pair = (chars_to_string(g.as_slice()), chars_to_string(name.as_slice()));
                        entries.push(pair);
                        assert(entries@.map_values(|e: (String, String)| (e.0@, e.1@)) =~= before.push(
                            (g@, name@),
                        ));
                        current = None;
                    },
                    None => {},
                },
                None => {},
            }
        }
        j = j + 1;
    }
    TextureLoaderTable { entries }
}

/// The file of a texture asset: its name with `.png`.
pub open spec fn asset_filename_spec(asset_name: Seq<char>) -> Seq<char> {
    asset_name + ".png"@
}

pub fn asset_filename(asset_name: &str) -> (r: String)
    ensures
        r@ == asset_filename_spec(asset_name@),
{
    let mut v = str_chars(asset_name);
    let ext = str_chars(".png");
    let mut i: usize = 0;
    let ghost start = v@;
    while i < ext.len()
        invariant
            i <= ext@.len(),
            ext@ == ".png"@,
            v@ == start + ext@.take(i as int),
        decreases ext.len() - i,
    {
        v.push(ext[i]);
        i = i + 1;
        assert(v@ =~= start + ext@.take(i as int));
    }
    assert(ext@.take(i as int) =~= ext@);
    chars_to_string(v.as_slice())
}

/// A sky texture asset, by name.
pub fn is_sky_texture_asset(asset_name: &str) -> (r: bool)
    ensures
        r == (contains(asset_name@, "Sky_Texture"@) || contains(asset_name@, "Backgrounds_sky"@)),
{
    let a = str_chars(asset_name);
    contains_lit(a.as_slice(), "Sky_Texture") || contains_lit(a.as_slice(), "Backgrounds_sky")
}

/// The background atlas file of a material, by the first eight bytes of its
/// GUID.
pub fn atlas_for_material_guid(table: &TextureLoaderTable, material_guid: &str) -> (r: Option<
    String,
>)
    ensures
        r matches Some(a) ==> last_value(loader_view(*table), guid_prefix_spec(material_guid@))
            matches Some(n) && a@ == asset_filename_spec(n),
        r is None ==> last_value(loader_view(*table), guid_prefix_spec(material_guid@)) is None,
{
    let g = str_chars(material_guid);
    let key = guid_prefix(g.as_slice());
    let ghost tv = loader_view(*table);
    let mut i: usize = table.entries.len();
    assert(tv.take(i as int) =~= tv);
    while i > 0
        invariant
            i <= table.entries@.len(),
            tv == loader_view(*table),
            key@ == guid_prefix_spec(material_guid@),
            last_value(tv, key@) == last_value(tv.take(i as int), key@),
        decreases i,
    {
        let e = &table.entries[i - 1];
        let ek = str_chars(e.0.as_str());
        assert(tv.take(i as int).drop_last() =~= tv.take(i - 1));
        assert(tv[i - 1] == (e.0@, e.1@));
        if chars_eq(ek.as_slice(), key.as_slice()) {
            assert(tv.take(i as int).last() == tv[i - 1]);
            return Some(asset_filename(e.1.as_str()));
        }
        i = i - 1;
    }
    None
}

// ── Texture lists ────────────────────────────────────

/// The file name of a pathname: what follows its last `/`.
pub open spec fn file_name(p: Seq<char>) -> Seq<char> {
    match rfind(p, "/"@) {
        Some(i) => p.skip(i + 1),
        None => p,
    }
}

fn file_name_of(p: &[char]) -> (r: Vec<char>)
    ensures
        r@ == file_name(p@),
{
    match rfind_lit(p, "/") {
        Some(i) => {
            proof {
                reveal_strlit("/");
            }
            let n = p.len();
            assert(i + 1 <= n);
            crate::text::copy_range(p, i + 1, n)
        },
        None => crate::text::copy_range(p, 0, p.len()),
    }
}

/// A texture file name among the `Texture2D` PNG assets.
pub open spec fn texture2d_png(recs: Seq<(Seq<char>, Seq<char>, Seq<u8>)>, t: Seq<char>) -> bool {
    exists|p: Seq<char>|
        #[trigger] listed(recs, "Assets/Texture2D/"@, ".png"@, p) && file_name(p) == t
}

/// A background atlas file name.
pub open spec fn is_bg_atlas_name(t: Seq<char>) -> bool {
    starts_with(t, "Background_"@) && contains(t, "_Sheet_"@)
}

/// A sky texture file name.
pub open spec fn is_sky_texture_name(t: Seq<char>) -> bool {
    ends_with(lower(t), "_sky_texture.png"@) || ends_with(lower(t), "_sky.png"@)
}

fn bg_atlas_name(t: &[char]) -> (r: bool)
    ensures
        r == is_bg_atlas_name(t@),
{
    starts_with_lit(t, "Background_") && contains_lit(t, "_Sheet_")
}

fn sky_texture_name(t: &[char]) -> (r: bool)
    ensures
        r == is_sky_texture_name(t@),
{
    let l = lower_chars(t);
    ends_with_lit(l.as_slice(), "_sky_texture.png") || ends_with_lit(l.as_slice(), "_sky.png")
}

/// The `Texture2D` PNG file names that pass `sky` (sky textures) or else
/// the background atlas test, sorted, each once.
fn texture2d_png_filenames(source: &AssetSource, sky: bool) -> (r: Vec<String>)
    ensures
        strictly_sorted(strings_view(r@)),
        forall|t: Seq<char>|
            #[trigger] strings_view(r@).contains(t) <==> (texture2d_png(source_records(*source), t)
                && (if sky {
                is_sky_texture_name(t)
            } else {
                is_bg_atlas_name(t)
            })),
{
    let paths = list_pathnames(source, "Assets/Texture2D/", ".png");
    let ghost recs = source_records(*source);
    let ghost pv = strings_view(paths@);
    let mut out: Vec<String> = Vec::new();
    let mut i: usize = 0;
    while i < paths.len()
        invariant
            recs == source_records(*source),
            pv == strings_view(paths@),
            forall|t: Seq<char>| #[trigger]
                pv.contains(t) <==> listed(recs, "Assets/Texture2D/"@, ".png"@, t),
            i <= paths@.len(),
            strictly_sorted(strings_view(out@)),
            forall|t: Seq<char>|
                #[trigger] strings_view(out@).contains(t) <==> ((exists|k: int|
                    0 <= k < i && file_name(#[trigger] pv[k]) == t) && (if sky {
                    is_sky_texture_name(t)
                } else {
                    is_bg_atlas_name(t)
                })),
        decreases paths.len() - i,
    {
        let p = str_chars(paths[i].as_str());
        assert(p@ == pv[i as int]);
        let name = file_name_of(p.as_slice());
        let keep = if sky {
            sky_texture_name(name.as_slice())
        } else {
            bg_atlas_name(name.as_slice())
        };
        let ghost before = strings_view(out@);
        if keep {
            sorted_insert(&mut out, chars_to_string(name.as_slice()));
        }
        assert forall|t: Seq<char>|
            #[trigger] strings_view(out@).contains(t) <==> ((exists|k: int|
                0 <= k < i + 1 && file_name(#[trigger] pv[k]) == t) && (if sky {
                is_sky_texture_name(t)
            } else {
                is_bg_atlas_name(t)
            })) by {
            if exists|k: int| 0 <= k < i + 1 && file_name(#[trigger] pv[k]) == t {
                let k = choose|k: int| 0 <= k < i + 1 && file_name(#[trigger] pv[k]) == t;
                if k < i {
                    assert(exists|k: int| 0 <= k < i && file_name(#[trigger] pv[k]) == t);
                }
            }
            if exists|k: int| 0 <= k < i && file_name(#[trigger] pv[k]) == t {
                let k = choose|k: int| 0 <= k < i && file_name(#[trigger] pv[k]) == t;
                assert(0 <= k < i + 1 && file_name(pv[k]) == t);
            }
            if t == name@ {
                assert(file_name(pv[i as int]) == t);
            }
        }
        i = i + 1;
    }
    assert forall|t: Seq<char>|
        #[trigger] strings_view(out@).contains(t) <==> (texture2d_png(recs, t) && (if sky {
            is_sky_texture_name(t)
        } else {
            is_bg_atlas_name(t)
        })) by {
        if exists|k: int| 0 <= k < i && file_name(#[trigger] pv[k]) == t {
            let k = choose|k: int| 0 <= k < i && file_name(#[trigger] pv[k]) == t;
            assert(pv.contains(pv[k]));
            assert(listed(recs, "Assets/Texture2D/"@, ".png"@, pv[k]));
        }
        if texture2d_png(recs, t) {
            let p = choose|p: Seq<char>|
                #[trigger] listed(recs, "Assets/Texture2D/"@, ".png"@, p) && file_name(p) == t;
            assert(pv.contains(p));
            let k = choose|k: int| 0 <= k < pv.len() && pv[k] == p;
            assert(file_name(pv[k]) == t);
        }
    }
    out
}

/// All background atlas file names (`Background_*_Sheet_*`) among the
/// `Texture2D` PNG assets, sorted, each once.
pub fn bg_atlas_files(source: &AssetSource) -> (r: Vec<String>)
    ensures
        strictly_sorted(strings_view(r@)),
        forall|t: Seq<char>|
            #[trigger] strings_view(r@).contains(t) <==> (texture2d_png(source_records(*source), t)
                && is_bg_atlas_name(t)),
{
    texture2d_png_filenames(source, false)
}

/// All sky texture file names (`*_sky_texture.png`, `*_sky.png`, in any
/// case) among the `Texture2D` PNG assets, sorted, each once.
pub fn sky_texture_files(source: &AssetSource) -> (r: Vec<String>)
    ensures
        strictly_sorted(strings_view(r@)),
        forall|t: Seq<char>|
            #[trigger] strings_view(r@).contains(t) <==> (texture2d_png(source_records(*source), t)
                && is_sky_texture_name(t)),
{
    texture2d_png_filenames(source, true)
}


/// The parallax layer of each tag the game's background groups carry.
pub proof fn lemma_parallax_layer_tags()
    ensures
        explicit_parallax_layer_spec("ParallaxLayerSky"@) == Some(BgLayer::Sky),
        explicit_parallax_layer_spec("ParallaxLayerFixedFollowCamera"@) == Some(BgLayer::Camera),
        explicit_parallax_layer_spec("ParallaxLayerFurther"@) == Some(BgLayer::Further),
        explicit_parallax_layer_spec("ParallaxLayerFar"@) == Some(BgLayer::Far),
        explicit_parallax_layer_spec("ParallaxLayerNear"@) == Some(BgLayer::Near),
        explicit_parallax_layer_spec("ParallaxLayerForeground"@) == Some(BgLayer::Foreground),
{
    reveal_strlit("ParallaxLayerFar");
    reveal_strlit("ParallaxLayerFixedFollowCamera");
    reveal_strlit("ParallaxLayerForeground");
    reveal_strlit("ParallaxLayerFurther");
    reveal_strlit("ParallaxLayerNear");
    reveal_strlit("ParallaxLayerSky");
    assert(explicit_parallax_layer_spec("ParallaxLayerSky"@) == Some(BgLayer::Sky)) by {
    }
    assert(explicit_parallax_layer_spec("ParallaxLayerFixedFollowCamera"@) == Some(BgLayer::Camera)) by {
        assert("ParallaxLayerSky"@.len() != "ParallaxLayerFixedFollowCamera"@.len());
    }
    assert(explicit_parallax_layer_spec("ParallaxLayerFurther"@) == Some(BgLayer::Further)) by {
        assert("ParallaxLayerSky"@.len() != "ParallaxLayerFurther"@.len());
        assert("ParallaxLayerFixedFollowCamera"@.len() != "ParallaxLayerFurther"@.len());
    }
    assert(explicit_parallax_layer_spec("ParallaxLayerFar"@) == Some(BgLayer::Far)) by {
        assert("ParallaxLayerSky"@[13] != "ParallaxLayerFar"@[13]);
        assert("ParallaxLayerFixedFollowCamera"@.len() != "ParallaxLayerFar"@.len());
        assert("ParallaxLayerFurther"@.len() != "ParallaxLayerFar"@.len());
    }
    assert(explicit_parallax_layer_spec("ParallaxLayerNear"@) == Some(BgLayer::Near)) by {
        assert("ParallaxLayerSky"@.len() != "ParallaxLayerNear"@.len());
        assert("ParallaxLayerFixedFollowCamera"@.len() != "ParallaxLayerNear"@.len());
        assert("ParallaxLayerFurther"@.len() != "ParallaxLayerNear"@.len());
        assert("ParallaxLayerFar"@.len() != "ParallaxLayerNear"@.len());
    }
    assert(explicit_parallax_layer_spec("ParallaxLayerForeground"@) == Some(BgLayer::Foreground)) by {
        assert("ParallaxLayerSky"@.len() != "ParallaxLayerForeground"@.len());
        assert("ParallaxLayerFixedFollowCamera"@.len() != "ParallaxLayerForeground"@.len());
        assert("ParallaxLayerFurther"@.len() != "ParallaxLayerForeground"@.len());
        assert("ParallaxLayerFar"@.len() != "ParallaxLayerForeground"@.len());
        assert("ParallaxLayerNear"@.len() != "ParallaxLayerForeground"@.len());
    }
}

} // verus!
