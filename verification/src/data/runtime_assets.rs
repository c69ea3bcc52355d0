//! The editor's runtime assets (icons, fonts, locales, shaders): which are
//! required, which are missing, the listing by prefix and suffix, and the
//! cache of bytes already read.

use vstd::prelude::*;
use crate::order::{sorted_insert, strictly_sorted};
use crate::text::{chars_eq, ends_with, ends_with_chars, starts_with, starts_with_chars, str_chars, strings_view};
use crate::data::assets::unitypackage_loader::copy_bytes;

verus! {

/// The runtime assets the editor cannot start without.
pub open spec fn required_runtime_assets_spec() -> Seq<&'static str> {
    seq![
        "ui/app-icon.png",
        "ui/tool-select.svg",
        "ui/tool-box-select.svg",
        "ui/tool-draw-terrain.svg",
        "ui/tool-pan.svg",
        "ui/tool-terrain-ellipse.svg",
        "ui/tool-terrain-rectangle.svg",
        "ui/tool-terrain-perfect-circle.svg",
        "ui/tool-terrain-square.svg",
        "ui/tool-terrain-equilateral-triangle.svg",
        "ui/tool-preview-build.svg",
        "ui/tool-preview-play.svg",
        "ui/tool-preview-pause.svg",
        "ui/drop-icon.svg",
        "fonts/NotoSansCJKsc-Regular.otf",
        "locales/zh-CN.ftl",
        "locales/en-US.ftl",
        "shader/e2d__curve.wgsl",
        "shader/_custom__unlit_color_geometry__terrain_fill.wgsl",
        "shader/unlit__transparent_cutout__sprite.wgsl",
        "shader/_custom__unlit_colortransparent_geometry__sprite.wgsl",
        "shader/_custom__unlit_monochrome.wgsl",
        "shader/_custom__unlit_color_geometry.wgsl",
        "shader/_custom__unlit_colortransparent_geometry.wgsl",
        "shader/_custom__unlit_alpha8bit_color.wgsl",
        "shader/unlit__transparent.wgsl",
        "shader/unlit__transparent_cutout.wgsl",
        "shader/depth_mask__unlit_transparent_cg__runtime.wgsl",
        "shader/depth_mask__maskoverlay__runtime.wgsl",
        "shader/depth_mask__maskoverlaynv__runtime.wgsl",
    ]
}

/// The required runtime assets, in order.
pub fn required_runtime_assets() -> (r: Vec<&'static str>)
    ensures
        r@ == required_runtime_assets_spec(),
{
    let r: Vec<&'static str> = vec![
        "ui/app-icon.png",
        "ui/tool-select.svg",
        "ui/tool-box-select.svg",
        "ui/tool-draw-terrain.svg",
        "ui/tool-pan.svg",
        "ui/tool-terrain-ellipse.svg",
        "ui/tool-terrain-rectangle.svg",
        "ui/tool-terrain-perfect-circle.svg",
        "ui/tool-terrain-square.svg",
        "ui/tool-terrain-equilateral-triangle.svg",
        "ui/tool-preview-build.svg",
        "ui/tool-preview-play.svg",
        "ui/tool-preview-pause.svg",
        "ui/drop-icon.svg",
        "fonts/NotoSansCJKsc-Regular.otf",
        "locales/zh-CN.ftl",
        "locales/en-US.ftl",
        "shader/e2d__curve.wgsl",
        "shader/_custom__unlit_color_geometry__terrain_fill.wgsl",
        "shader/unlit__transparent_cutout__sprite.wgsl",
        "shader/_custom__unlit_colortransparent_geometry__sprite.wgsl",
        "shader/_custom__unlit_monochrome.wgsl",
        "shader/_custom__unlit_color_geometry.wgsl",
        "shader/_custom__unlit_colortransparent_geometry.wgsl",
        "shader/_custom__unlit_alpha8bit_color.wgsl",
        "shader/unlit__transparent.wgsl",
        "shader/unlit__transparent_cutout.wgsl",
        "shader/depth_mask__unlit_transparent_cg__runtime.wgsl",
        "shader/depth_mask__maskoverlay__runtime.wgsl",
        "shader/depth_mask__maskoverlaynv__runtime.wgsl",
    ];
    assert(r@ =~= required_runtime_assets_spec());
    r
}

/// The required assets among the first `n` that are not present, in order.
pub open spec fn missing_upto(req: Seq<&'static str>, present: Seq<Seq<char>>, n: nat) -> Seq<
    Seq<char>,
>
    decreases n,
{
    if n == 0 {
        Seq::empty()
    } else {
        let prev = missing_upto(req, present, (n - 1) as nat);
        if present.contains(req[n - 1]@) {
            prev
        } else {
            prev.push(req[n - 1]@)
        }
    }
}

/// The required runtime assets that are not among the `present` files, in
/// the order of the required list.
pub fn missing_runtime_assets(present: &[String]) -> (r: Vec<String>)
    ensures
        strings_view(r@) == missing_upto(
            required_runtime_assets_spec(),
            strings_view(present@),
            required_runtime_assets_spec().len(),
        ),
{
    let req = required_runtime_assets();
    let ghost pv = strings_view(present@);
    let mut missing: Vec<String> = Vec::new();
    let mut i: usize = 0;
    while i < req.len()
        invariant
            req@ == required_runtime_assets_spec(),
            pv == strings_view(present@),
            i <= req@.len(),
            strings_view(missing@) == missing_upto(req@, pv, i as nat),
        decreases req.len() - i,
    {
        let name = str_chars(req[i]);
        let mut found = false;
        let mut k: usize = 0;
        while k < present.len()
            invariant
                pv == strings_view(present@),
                name@ == req@[i as int]@,
                k <= present@.len(),
                found == (exists|m: int| 0 <= m < k && pv[m] == name@),
            decreases present.len() - k,
        {
            let p = str_chars(present[k].as_str());
            assert(p@ == pv[k as int]);
            if chars_eq(p.as_slice(), name.as_slice()) {
                found = true;
            }
            k = k + 1;
        }
        assert(found == pv.contains(name@));
        if !found {
            let ghost before = strings_view(missing@);
            missing.push(req[i].to_string());
            assert(strings_view(missing@) =~= before.push(req@[i as int]@));
        }
        i = i + 1;
    }
    missing
}

/// The runtime asset files (relative paths, each listed once) that start
/// with `prefix` and end with `suffix`, sorted.
pub fn list_runtime_assets(files: &[String], prefix: &str, suffix: &str) -> (r: Vec<String>)
    ensures
        strictly_sorted(strings_view(r@)),
        forall|t: Seq<char>|
            #[trigger] strings_view(r@).contains(t) <==> (strings_view(files@).contains(t)
                && starts_with(t, prefix@) && ends_with(t, suffix@)),
{
    let ghost fv = strings_view(files@);
    let pc = str_chars(prefix);
    let sc = str_chars(suffix);
    let mut out: Vec<String> = Vec::new();
    let mut i: usize = 0;
    while i < files.len()
        invariant
            fv == strings_view(files@),
            pc@ == prefix@,
            sc@ == suffix@,
            i <= files@.len(),
            strictly_sorted(strings_view(out@)),
            forall|t: Seq<char>|
                #[trigger] strings_view(out@).contains(t) <==> (fv.take(i as int).contains(t)
                    && starts_with(t, prefix@) && ends_with(t, suffix@)),
        decreases files.len() - i,
    {
        let f = str_chars(files[i].as_str());
        assert(f@ == fv[i as int]);
        if starts_with_chars(f.as_slice(), pc.as_slice()) && ends_with_chars(
            f.as_slice(),
            sc.as_slice(),
        ) {
            sorted_insert(&mut out, crate::text::chars_to_string(f.as_slice()));
        }
        assert forall|t: Seq<char>|
            #[trigger] strings_view(out@).contains(t) <==> (fv.take(i + 1).contains(t)
                && starts_with(t, prefix@) && ends_with(t, suffix@)) by {
            let pre = fv.take(i as int);
            let post = fv.take(i + 1);
            assert(post =~= pre.push(fv[i as int]));
            if post.contains(t) {
                let k = choose|k: int| 0 <= k < post.len() && post[k] == t;
                if k < i {
                    assert(pre[k] == t);
                }
            }
            if pre.contains(t) {
                let k = choose|k: int| 0 <= k < pre.len() && pre[k] == t;
                assert(post[k] == t);
            }
            if t == fv[i as int] {
                assert(post[i as int] == t);
            }
        }
        i = i + 1;
    }
    assert(fv.take(i as int) =~= fv);
    out
}

// ── Cache ────────────────────────────────────────────

/// The bytes of the runtime assets read so far, by relative path.
pub struct RuntimeAssetCache {
    pub entries: Vec<(String, Vec<u8>)>,
}

pub open spec fn cache_view(c: RuntimeAssetCache) -> Seq<(Seq<char>, Seq<u8>)> {
    c.entries@.map_values(|e: (String, Vec<u8>)| (e.0@, e.1@))
}

/// The bytes the entries hold for `path` (the last entry for it; `insert`
/// adds none for a path that has one).
pub open spec fn cache_get(es: Seq<(Seq<char>, Seq<u8>)>, path: Seq<char>) -> Option<Seq<u8>>
    decreases es.len(),
{
    if es.len() == 0 {
        None
    } else if es.last().0 == path {
        Some(es.last().1)
    } else {
        cache_get(es.drop_last(), path)
    }
}

impl RuntimeAssetCache {
    pub fn new() -> (r: RuntimeAssetCache)
        ensures
            cache_view(r) == Seq::<(Seq<char>, Seq<u8>)>::empty(),
    {
        let r = RuntimeAssetCache { entries: Vec::new() };
        assert(cache_view(r) =~= Seq::<(Seq<char>, Seq<u8>)>::empty());
        r
    }

    /// Stores the bytes read for `path`, when none are cached for it yet: an
    /// asset is read once, and what was read first stays.
    pub fn insert(&mut self, path: &str, bytes: Vec<u8>)
        ensures
            cache_view(*final(self)) == cache_insert(cache_view(*old(self)), path@, bytes@),
    {
        if read_runtime_asset_bytes(self, path).is_none() {
            let ghost before = cache_view(*self);
            self.entries.push((path.to_string(), bytes));
            assert(cache_view(*self) =~= before.push((path@, bytes@)));
        }
    }
}

/// The cache after storing `bytes` for `path`: unchanged when `path` is
/// cached already.
pub open spec fn cache_insert(es: Seq<(Seq<char>, Seq<u8>)>, path: Seq<char>, bytes: Seq<u8>) -> Seq<
    (Seq<char>, Seq<u8>),
> {
    if cache_get(es, path) is None {
        es.push((path, bytes))
    } else {
        es
    }
}

/// Reading back after a store gives what was stored first for that path
/// (the new bytes when it had none); other paths are unaffected.
pub proof fn lemma_cache_read_after_insert(
    es: Seq<(Seq<char>, Seq<u8>)>,
    path: Seq<char>,
    bytes: Seq<u8>,
    other: Seq<char>,
)
    ensures
        cache_get(cache_insert(es, path, bytes), path) == Some(
            match cache_get(es, path) {
                Some(first) => first,
                None => bytes,
            },
        ),
        other != path ==> cache_get(cache_insert(es, path, bytes), other) == cache_get(es, other),
{
    assert(es.push((path, bytes)).drop_last() =~= es);
}

/// The cached bytes of a runtime asset; `None` when it has not been read
/// yet.
pub fn read_runtime_asset_bytes(cache: &RuntimeAssetCache, relative_path: &str) -> (r: Option<
    Vec<u8>,
>)
    ensures
        match r {
            Some(b) => cache_get(cache_view(*cache), relative_path@) == Some(b@),
            None => cache_get(cache_view(*cache), relative_path@) is None,
        },
{
    let p = str_chars(relative_path);
    let ghost tv = cache_view(*cache);
    let mut i: usize = cache.entries.len();
    assert(tv.take(i as int) =~= tv);
    while i > 0
        invariant
            i <= cache.entries@.len(),
            tv == cache_view(*cache),
            p@ == relative_path@,
            cache_get(tv, p@) == cache_get(tv.take(i as int), p@),
        decreases i,
    {
        let e = &cache.entries[i - 1];
        let ek = str_chars(e.0.as_str());
        assert(tv.take(i as int).drop_last() =~= tv.take(i - 1));
        assert(tv[i - 1] == (e.0@, e.1@));
        if chars_eq(ek.as_slice(), p.as_slice()) {
            assert(tv.take(i as int).last() == tv[i - 1]);
            return Some(copy_bytes(e.1.as_slice()));
        }
        i = i - 1;
    }
    None
}

/// `String::from_utf8`: the text of `bytes` when they are valid UTF-8.
#[verifier::external_body]
fn utf8_decode(bytes: Vec<u8>) -> (r: Option<String>)
    ensures
        r is Some <==> vstd::utf8::valid_utf8(bytes@),
        r matches Some(s) ==> s@ == vstd::utf8::decode_utf8(bytes@),
{
    String::from_utf8(bytes).ok()
}

/// The cached text of a runtime asset; `None` when it has not been read
/// yet or is not valid UTF-8.
pub fn read_runtime_asset_text(cache: &RuntimeAssetCache, relative_path: &str) -> (r: Option<
    String,
>)
    ensures
        match r {
            Some(t) => cache_get(cache_view(*cache), relative_path@) matches Some(b)
                && vstd::utf8::valid_utf8(b) && t@ == vstd::utf8::decode_utf8(b),
            None => match cache_get(cache_view(*cache), relative_path@) {
                Some(b) => !vstd::utf8::valid_utf8(b),
                None => true,
            },
        },
{
    match read_runtime_asset_bytes(cache, relative_path) {
        Some(b) => utf8_decode(b),
        None => None,
    }
}

} // verus!
