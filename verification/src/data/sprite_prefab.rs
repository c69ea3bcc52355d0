//! Prefab YAML as the sprite database reads it — game objects, transforms,
//! renderers and runtime sprite behaviours — and the runtime atlas
//! observations gathered from the prefabs of an asset source.

use vstd::prelude::*;
use crate::data::assets::embedded::{
    list_pathnames, read_pathname_text, source_bytes_spec, source_records, AssetSource,
};
use crate::data::assets::theme::{flag_get, flag_get_exec, flags_view, is_prefab_listing, PrefabTable};
use crate::data::assets::unitypackage_loader::utf8_lossy_result;
use crate::data::bg_prefab::{docs_of, float_text, is_float_text};
use crate::data::level_db::{doc_header_spec, parse_doc_header};
use crate::data::sprite_db::{
    active_after, file_id_spec, observations_view, parse_file_id, parse_game_object,
    parse_renderer, parse_transform, renderer_spec, runtime_atlas_names, transform_spec,
    RendererInfo, RuntimeAtlasObservations, TransformInfo,
};
use crate::text::{
    chars_eq, chars_to_string, lines, split_lines, split_on, split_on_lit, str_chars,
    strings_view, strip_prefix, strip_prefix_lit, trim, trim_chars, vv,
};

verus! {

// ── Runtime sprite behaviours ────────────────────────

/// A runtime sprite behaviour: its game object, sprite id and the two
/// scales (as text that reads as a number).
pub struct RuntimeSpriteComponent {
    pub game_object_id: String,
    pub sprite_id: String,
    pub scale_x: String,
    pub scale_y: String,
}

pub open spec fn component_view(c: RuntimeSpriteComponent) -> (Seq<char>, Seq<char>, Seq<char>, Seq<char>) {
    (c.game_object_id@, c.sprite_id@, c.scale_x@, c.scale_y@)
}

/// A value that reads as a number, else none.
pub open spec fn number_or_none(v: Seq<char>) -> Option<Seq<char>> {
    if float_text(v) {
        Some(v)
    } else {
        None
    }
}

/// Scan of a behaviour's trimmed lines: the last game object, sprite id
/// and scales.
pub open spec fn behaviour_step(
    st: (Option<Seq<char>>, Option<Seq<char>>, Option<Seq<char>>, Option<Seq<char>>),
    t: Seq<char>,
) -> (Option<Seq<char>>, Option<Seq<char>>, Option<Seq<char>>, Option<Seq<char>>) {
    let (go, id, sx, sy) = st;
    match strip_prefix(t, "m_GameObject:"@) {
        Some(v) => (file_id_spec(v), id, sx, sy),
        None => match strip_prefix(t, "m_id:"@) {
            Some(v) => (go, Some(trim(v)), sx, sy),
            None => match strip_prefix(t, "m_scaleX:"@) {
                Some(v) => (go, id, number_or_none(trim(v)), sy),
                None => match strip_prefix(t, "m_scaleY:"@) {
                    Some(v) => (go, id, sx, number_or_none(trim(v))),
                    None => st,
                },
            },
        },
    }
}

pub open spec fn behaviour_scan(ls: Seq<Seq<char>>) -> (
    Option<Seq<char>>,
    Option<Seq<char>>,
    Option<Seq<char>>,
    Option<Seq<char>>,
)
    decreases ls.len(),
{
    if ls.len() == 0 {
        (None, None, None, None)
    } else {
        behaviour_step(behaviour_scan(ls.drop_last()), trim(ls.last()))
    }
}

/// A behaviour document is a runtime sprite when it names a game object, a
/// sprite id and both scales.
pub open spec fn runtime_sprite_spec(doc: Seq<char>) -> Option<(Seq<char>, Seq<char>, Seq<char>, Seq<char>)> {
    match behaviour_scan(lines(doc)) {
        (Some(go), Some(id), Some(sx), Some(sy)) => Some((go, id, sx, sy)),
        _ => None,
    }
}

pub open spec fn opt_chars_view(o: Option<Vec<char>>) -> Option<Seq<char>> {
    match o {
        Some(v) => Some(v@),
        None => None,
    }
}

fn number_or_none_exec(v: Vec<char>) -> (r: Option<Vec<char>>)
    ensures
        opt_chars_view(r) == number_or_none(v@),
{
    if is_float_text(v.as_slice()) {
        Some(v)
    } else {
        None
    }
}

/// The runtime sprite a behaviour document declares.
pub fn parse_runtime_sprite(doc: &str) -> (r: Option<RuntimeSpriteComponent>)
    ensures
        match r {
            Some(c) => runtime_sprite_spec(doc@) == Some(component_view(c)),
            None => runtime_sprite_spec(doc@) is None,
        },
{
    let d = str_chars(doc);
    let ls = split_lines(d.as_slice());
    let ghost lv = vv(ls@);
    let mut go: Option<Vec<char>> = None;
    let mut id: Option<Vec<char>> = None;
    let mut sx: Option<Vec<char>> = None;
    let mut sy: Option<Vec<char>> = None;
    let mut i: usize = 0;
    while i < ls.len()
        invariant
            lv == vv(ls@),
            lv == lines(doc@),
            i <= lv.len(),
            behaviour_scan(lv.take(i as int)) == (
                opt_chars_view(go),
                opt_chars_view(id),
                opt_chars_view(sx),
                opt_chars_view(sy),
            ),
        decreases ls.len() - i,
    {
        assert(lv.take(i + 1).drop_last() =~= lv.take(i as int));
        assert(lv.take(i + 1).last() == lv[i as int]);
        let t = trim_chars(ls[i].as_slice());
        match strip_prefix_lit(t.as_slice(), "m_GameObject:") {
            Some(v) => {
                go = parse_file_id(v.as_slice());
            },
            None => match strip_prefix_lit(t.as_slice(), "m_id:") {
                Some(v) => {
                    id = Some(trim_chars(v.as_slice()));
                },
                None => match strip_prefix_lit(t.as_slice(), "m_scaleX:") {
                    Some(v) => {
                        sx = number_or_none_exec(trim_chars(v.as_slice()));
                    },
                    None => match strip_prefix_lit(t.as_slice(), "m_scaleY:") {
                        Some(v) => {
                            sy = number_or_none_exec(trim_chars(v.as_slice()));
                        },
                        None => {},
                    },
                },
            },
        }
        i = i + 1;
    }
    assert(lv.take(i as int) =~= lv);
    match (go, id, sx, sy) {
        (Some(g), Some(s), Some(x), Some(y)) => Some(
            RuntimeSpriteComponent {
                game_object_id: chars_to_string(g.as_slice()),
                sprite_id: chars_to_string(s.as_slice()),
                scale_x: chars_to_string(x.as_slice()),
                scale_y: chars_to_string(y.as_slice()),
            },
        ),
        _ => None,
    }
}

// ── Sprite prefabs ───────────────────────────────────

/// A prefab as the sprite database reads it, in document order; for a
/// file id (game objects, transforms) or a game object (renderers) a later
/// entry replaces an earlier one.
pub struct SpritePrefab {
    pub game_objects: PrefabTable<bool>,
    pub transforms: Vec<(String, TransformInfo)>,
    pub renderers: Vec<RendererInfo>,
    pub runtime_sprites: Vec<RuntimeSpriteComponent>,
}

/// The scan of a prefab's documents: game objects with whether they are
/// active, transforms, renderers and runtime sprites.
#[verifier::ext_equal]
pub struct SpriteScan {
    pub game_objects: Seq<(Seq<char>, bool)>,
    pub transforms: Seq<(Seq<char>, (Seq<char>, Seq<char>, Seq<Seq<char>>))>,
    pub renderers: Seq<(Seq<char>, Seq<char>, bool)>,
    pub runtime_sprites: Seq<(Seq<char>, Seq<char>, Seq<char>, Seq<char>)>,
}

pub open spec fn opt_push<A>(s: Seq<A>, o: Option<A>) -> Seq<A> {
    match o {
        Some(a) => s.push(a),
        None => s,
    }
}

/// The class and file id of a document, from its first line.
pub open spec fn sprite_doc_header(doc: Seq<char>) -> Option<(int, Seq<char>)> {
    if lines(doc).len() > 0 {
        doc_header_spec(trim(lines(doc)[0]))
    } else {
        None
    }
}

pub open spec fn sprite_scan_step(st: SpriteScan, doc: Seq<char>) -> SpriteScan {
    match sprite_doc_header(doc) {
        Some((c, id)) => if c == 1 {
            SpriteScan {
                game_objects: st.game_objects.push((id, active_after(lines(doc), lines(doc).len()))),
                ..st
            }
        } else if c == 4 {
            SpriteScan {
                transforms: opt_push(
                    st.transforms,
                    match transform_spec(doc) {
                        Some(t) => Some((id, t)),
                        None => None,
                    },
                ),
                ..st
            }
        } else if c == 23 {
            SpriteScan { renderers: opt_push(st.renderers, renderer_spec(doc)), ..st }
        } else if c == 114 {
            SpriteScan { runtime_sprites: opt_push(st.runtime_sprites, runtime_sprite_spec(doc)), ..st }
        } else {
            st
        },
        None => st,
    }
}

pub open spec fn sprite_scan(docs: Seq<Seq<char>>) -> SpriteScan
    decreases docs.len(),
{
    if docs.len() == 0 {
        SpriteScan {
            game_objects: Seq::empty(),
            transforms: Seq::empty(),
            renderers: Seq::empty(),
            runtime_sprites: Seq::empty(),
        }
    } else {
        sprite_scan_step(sprite_scan(docs.drop_last()), docs.last())
    }
}

pub open spec fn sprite_prefab_view(p: SpritePrefab) -> SpriteScan {
    SpriteScan {
        game_objects: flags_view(p.game_objects),
        transforms: p.transforms@.map_values(
            |t: (String, TransformInfo)|
                (t.0@, (t.1.game_object_id@, t.1.father@, strings_view(t.1.children@))),
        ),
        renderers: p.renderers@.map_values(
            |r: RendererInfo| (r.game_object_id@, r.material_guid@, r.enabled),
        ),
        runtime_sprites: p.runtime_sprites@.map_values(|c: RuntimeSpriteComponent| component_view(c)),
    }
}

/// Parses the documents of a prefab that the sprite database reads.
pub fn parse_sprite_prefab(text: &str) -> (r: SpritePrefab)
    ensures
        sprite_prefab_view(r) == sprite_scan(docs_of(text@)),
{
    proof {
        reveal_strlit("--- ");
    }
    let t = str_chars(text);
    let parts = split_on_lit(t.as_slice(), "--- ");
    let ghost docs = docs_of(text@);
    let mut r = SpritePrefab {
        game_objects: PrefabTable { entries: Vec::new() },
        transforms: Vec::new(),
        renderers: Vec::new(),
        runtime_sprites: Vec::new(),
    };
    proof {
        assert(sprite_prefab_view(r) =~= sprite_scan(Seq::empty())) by {
            assert(flags_view(r.game_objects) =~= Seq::<(Seq<char>, bool)>::empty());
        }
    }
    let mut i: usize = 1;
    while i < parts.len()
        invariant
            vv(parts@) == split_on(text@, "--- "@),
            docs == docs_of(text@),
            1 <= i,
            parts@.len() > 0 ==> i <= parts@.len(),
            sprite_prefab_view(r) == sprite_scan(docs.take(i - 1)),
        decreases parts.len() - i,
    {
        let doc = parts[i].as_slice();
        assert(docs[i - 1] == parts@[i as int]@);
        assert(docs.take(i as int).drop_last() =~= docs.take(i - 1));
        assert(docs.take(i as int).last() == docs[i - 1]);
        let ghost before = sprite_prefab_view(r);
        let ls = split_lines(doc);
        let header = if ls.len() > 0 {
            let h = trim_chars(ls[0].as_slice());
            parse_doc_header(h.as_slice())
        } else {
            None
        };
        let d = chars_to_string(doc);
        match header {
            Some((c, id)) => {
                if c == 1 {
                    let active = parse_game_object(d.as_str());
                    r.game_objects.entries.push((id, active));
                    assert(sprite_prefab_view(r) =~= sprite_scan_step(before, doc@));
                } else if c == 4 {
                    match parse_transform(d.as_str()) {
                        Some(tr) => {
                            r.transforms.push((id, tr));
                        },
                        None => {},
                    }
                    assert(sprite_prefab_view(r) =~= sprite_scan_step(before, doc@));
                } else if c == 23 {
                    match parse_renderer(d.as_str()) {
                        Some(x) => {
                            r.renderers.push(x);
                        },
                        None => {},
                    }
                    assert(sprite_prefab_view(r) =~= sprite_scan_step(before, doc@));
                } else if c == 114 {
                    match parse_runtime_sprite(d.as_str()) {
                        Some(x) => {
                            r.runtime_sprites.push(x);
                        },
                        None => {},
                    }
                    assert(sprite_prefab_view(r) =~= sprite_scan_step(before, doc@));
                } else {
                    assert(sprite_prefab_view(r) =~= sprite_scan_step(before, doc@));
                }
            },
            None => {
                assert(sprite_prefab_view(r) =~= sprite_scan_step(before, doc@));
            },
        }
        i = i + 1;
    }
    proof {
        if parts@.len() > 0 {
            assert(docs.take(i - 1) =~= docs);
        } else {
            assert(docs =~= Seq::<Seq<char>>::empty());
        }
    }
    r
}

// ── Runtime atlas observations ───────────────────────

/// A table of strings by string, as plain values.
pub open spec fn string_table_view(t: PrefabTable<String>) -> Seq<(Seq<char>, Seq<char>)> {
    t.entries@.map_values(|e: (String, String)| (e.0@, e.1@))
}

/// The renderer of a game object: the last one declared for it, with its
/// material GUID and whether it is enabled.
pub open spec fn renderer_of(rs: Seq<(Seq<char>, Seq<char>, bool)>, go: Seq<char>) -> Option<(Seq<char>, bool)> {
    flag_get(rs.map_values(|r: (Seq<char>, Seq<char>, bool)| (r.0, (r.1, r.2))), go)
}

/// What a runtime sprite adds to the observations, given the material id
/// of each known sprite id and the texture of each material GUID: the
/// sprite's material id and texture, when the sprite is known, its game
/// object active, its renderer enabled and that renderer's texture a
/// runtime atlas.
pub open spec fn sprite_observation(
    p: SpriteScan,
    metas: Seq<(Seq<char>, Seq<char>)>,
    textures: Seq<(Seq<char>, Seq<char>)>,
    c: (Seq<char>, Seq<char>, Seq<char>, Seq<char>),
) -> Seq<(Seq<char>, Seq<char>)> {
    match flag_get(metas, c.1) {
        Some(mid) => if flag_get(p.game_objects, c.0) == Some(true) {
            match renderer_of(p.renderers, c.0) {
                Some((guid, enabled)) => if enabled {
                    match flag_get(textures, guid) {
                        Some(tex) => if runtime_atlas_names().contains(tex) {
                            seq![(mid, tex)]
                        } else {
                            Seq::empty()
                        },
                        None => Seq::empty(),
                    }
                } else {
                    Seq::empty()
                },
                None => Seq::empty(),
            }
        } else {
            Seq::empty()
        },
        None => Seq::empty(),
    }
}

pub open spec fn sprites_observations(
    p: SpriteScan,
    metas: Seq<(Seq<char>, Seq<char>)>,
    textures: Seq<(Seq<char>, Seq<char>)>,
    cs: Seq<(Seq<char>, Seq<char>, Seq<char>, Seq<char>)>,
) -> Seq<(Seq<char>, Seq<char>)>
    decreases cs.len(),
{
    if cs.len() == 0 {
        Seq::empty()
    } else {
        sprites_observations(p, metas, textures, cs.drop_last()) + sprite_observation(
            p,
            metas,
            textures,
            cs.last(),
        )
    }
}

/// The observations of the prefabs of a listing, in order.
pub open spec fn listing_observations(
    s: AssetSource,
    metas: Seq<(Seq<char>, Seq<char>)>,
    textures: Seq<(Seq<char>, Seq<char>)>,
    ps: Seq<Seq<char>>,
) -> Seq<(Seq<char>, Seq<char>)>
    decreases ps.len(),
{
    if ps.len() == 0 {
        Seq::empty()
    } else {
        listing_observations(s, metas, textures, ps.drop_last()) + match source_bytes_spec(
            s,
            ps.last(),
        ) {
            Some(b) => {
                let scan = sprite_scan(docs_of(utf8_lossy_result(b)));
                sprites_observations(scan, metas, textures, scan.runtime_sprites)
            },
            None => Seq::empty(),
        }
    }
}

/// The position of the last entry for a key.
fn last_string_index(t: &PrefabTable<String>, key: &[char]) -> (r: Option<usize>)
    ensures
        match r {
            Some(i) => i < t.entries@.len() && flag_get(string_table_view(*t), key@) == Some(
                t.entries@[i as int].1@,
            ),
            None => flag_get(string_table_view(*t), key@) is None,
        },
{
    let ghost tv = string_table_view(*t);
    let mut i: usize = t.entries.len();
    assert(tv.take(i as int) =~= tv);
    while i > 0
        invariant
            i <= t.entries@.len(),
            tv == string_table_view(*t),
            flag_get(tv, key@) == flag_get(tv.take(i as int), key@),
        decreases i,
    {
        let ek = str_chars(t.entries[i - 1].0.as_str());
        assert(tv.take(i as int).drop_last() =~= tv.take(i - 1));
        assert(tv[i - 1] == (t.entries@[i - 1].0@, t.entries@[i - 1].1@));
        if chars_eq(ek.as_slice(), key) {
            assert(tv.take(i as int).last() == tv[i - 1]);
            return Some(i - 1);
        }
        i = i - 1;
    }
    None
}

/// The renderer last declared for a game object.
fn last_renderer(rs: &Vec<RendererInfo>, go: &[char]) -> (r: Option<usize>)
    ensures
        match r {
            Some(i) => i < rs@.len() && renderer_of(
                rs@.map_values(|x: RendererInfo| (x.game_object_id@, x.material_guid@, x.enabled)),
                go@,
            ) == Some((rs@[i as int].material_guid@, rs@[i as int].enabled)),
            None => renderer_of(
                rs@.map_values(|x: RendererInfo| (x.game_object_id@, x.material_guid@, x.enabled)),
                go@,
            ) is None,
        },
{
    let ghost rv = rs@.map_values(|x: RendererInfo| (x.game_object_id@, x.material_guid@, x.enabled));
    let ghost tv = rv.map_values(|r: (Seq<char>, Seq<char>, bool)| (r.0, (r.1, r.2)));
    let mut i: usize = rs.len();
    assert(tv.take(i as int) =~= tv);
    while i > 0
        invariant
            i <= rs@.len(),
            rv == rs@.map_values(|x: RendererInfo| (x.game_object_id@, x.material_guid@, x.enabled)),
            tv == rv.map_values(|r: (Seq<char>, Seq<char>, bool)| (r.0, (r.1, r.2))),
            flag_get(tv, go@) == flag_get(tv.take(i as int), go@),
        decreases i,
    {
        let ek = str_chars(rs[i - 1].game_object_id.as_str());
        assert(tv.take(i as int).drop_last() =~= tv.take(i - 1));
        assert(tv[i - 1] == (rs@[i - 1].game_object_id@, (rs@[i - 1].material_guid@, rs@[i - 1].enabled)));
        if chars_eq(ek.as_slice(), go) {
            assert(tv.take(i as int).last() == tv[i - 1]);
            return Some(i - 1);
        }
        i = i - 1;
    }
    None
}

/// Adds the observations of one parsed prefab.
fn observe_prefab(
    obs: &mut RuntimeAtlasObservations,
    p: &SpritePrefab,
    metas: &PrefabTable<String>,
    textures: &PrefabTable<String>,
)
    ensures
        observations_view(*final(obs)) == observations_view(*old(obs)) + sprites_observations(
            sprite_prefab_view(*p),
            string_table_view(*metas),
            string_table_view(*textures),
            sprite_prefab_view(*p).runtime_sprites,
        ),
{
    let ghost pv = sprite_prefab_view(*p);
    let ghost mv = string_table_view(*metas);
    let ghost xv = string_table_view(*textures);
    let ghost start = observations_view(*obs);
    let mut k: usize = 0;
    assert(pv.runtime_sprites.take(0) =~= Seq::<(Seq<char>, Seq<char>, Seq<char>, Seq<char>)>::empty());
    assert(start + Seq::<(Seq<char>, Seq<char>)>::empty() =~= start);
    while k < p.runtime_sprites.len()
        invariant
            pv == sprite_prefab_view(*p),
            mv == string_table_view(*metas),
            xv == string_table_view(*textures),
            k <= pv.runtime_sprites.len(),
            observations_view(*obs) == start + sprites_observations(
                pv,
                mv,
                xv,
                pv.runtime_sprites.take(k as int),
            ),
        decreases p.runtime_sprites.len() - k,
    {
        let c = &p.runtime_sprites[k];
        let ghost cv = component_view(*c);
        assert(pv.runtime_sprites[k as int] == cv);
        assert(pv.runtime_sprites.take(k + 1).drop_last() =~= pv.runtime_sprites.take(k as int));
        assert(pv.runtime_sprites.take(k + 1).last() == cv);
        let ghost before = observations_view(*obs);
        let ghost add = sprite_observation(pv, mv, xv, cv);
        let sid = str_chars(c.sprite_id.as_str());
        let gid = str_chars(c.game_object_id.as_str());
        match last_string_index(metas, sid.as_slice()) {
            Some(mi) => {
                let active = flag_get_exec(&p.game_objects, gid.as_slice());
                if active == Some(true) {
                    match last_renderer(&p.renderers, gid.as_slice()) {
                        Some(ri) => {
                            let renderer = &p.renderers[ri];
                            if renderer.enabled {
                                let guid = str_chars(renderer.material_guid.as_str());
                                match last_string_index(textures, guid.as_slice()) {
                                    Some(ti) => {
                                        obs.record(
                                            metas.entries[mi].1.as_str(),
                                            textures.entries[ti].1.as_str(),
                                        );
                                        assert(observations_view(*obs) =~= before + add);
                                    },
                                    None => {
                                        assert(before + add =~= before);
                                    },
                                }
                            } else {
                                assert(before + add =~= before);
                            }
                        },
                        None => {
                            assert(before + add =~= before);
                        },
                    }
                } else {
                    assert(before + add =~= before);
                }
            },
            None => {
                assert(before + add =~= before);
            },
        }
        k = k + 1;
    }
    assert(pv.runtime_sprites.take(k as int) =~= pv.runtime_sprites);
}

/// Adds the observations of the prefabs under a directory.
fn observe_listing(
    obs: &mut RuntimeAtlasObservations,
    source: &AssetSource,
    dir: &str,
    metas: &PrefabTable<String>,
    textures: &PrefabTable<String>,
)
    ensures
        exists|ps: Seq<Seq<char>>|
            is_prefab_listing(source_records(*source), dir@, ps) && observations_view(*final(obs))
                == observations_view(*old(obs)) + listing_observations(
                *source,
                string_table_view(*metas),
                string_table_view(*textures),
                ps,
            ),
{
    let paths = list_pathnames(source, dir, ".prefab");
    let ghost pv = strings_view(paths@);
    let ghost mv = string_table_view(*metas);
    let ghost xv = string_table_view(*textures);
    let ghost start = observations_view(*obs);
    let mut i: usize = 0;
    assert(pv.take(0) =~= Seq::<Seq<char>>::empty());
    assert(start + Seq::<(Seq<char>, Seq<char>)>::empty() =~= start);
    while i < paths.len()
        invariant
            pv == strings_view(paths@),
            mv == string_table_view(*metas),
            xv == string_table_view(*textures),
            i <= pv.len(),
            observations_view(*obs) == start + listing_observations(*source, mv, xv, pv.take(i as int)),
        decreases paths.len() - i,
    {
        let path = paths[i].as_str();
        assert(path@ == pv[i as int]);
        assert(pv.take(i + 1).drop_last() =~= pv.take(i as int));
        assert(pv.take(i + 1).last() == pv[i as int]);
        let ghost before = observations_view(*obs);
        match read_pathname_text(source, path) {
            Some(text) => {
                let parsed = parse_sprite_prefab(text.as_str());
                observe_prefab(obs, &parsed, metas, textures);
                assert(observations_view(*obs) =~= start + listing_observations(
                    *source,
                    mv,
                    xv,
                    pv.take(i + 1),
                ));
            },
            None => {
                assert(observations_view(*obs) =~= start + listing_observations(
                    *source,
                    mv,
                    xv,
                    pv.take(i + 1),
                ));
            },
        }
        i = i + 1;
    }
    assert(pv.take(i as int) =~= pv);
    assert(is_prefab_listing(source_records(*source), dir@, pv));
}

/// The (material id, runtime atlas) pairs drawn by the active, enabled
/// runtime sprites of the prefabs under `Assets/Prefab/` and then
/// `Assets/Resources/ui/`, given the material id of each known sprite id
/// and the texture of each material GUID.
pub fn build_runtime_atlas_observations(
    source: &AssetSource,
    metas: &PrefabTable<String>,
    textures: &PrefabTable<String>,
) -> (r: RuntimeAtlasObservations)
    ensures
        exists|ps: Seq<Seq<char>>, us: Seq<Seq<char>>|
            is_prefab_listing(source_records(*source), "Assets/Prefab/"@, ps) && is_prefab_listing(
                source_records(*source),
                "Assets/Resources/ui/"@,
                us,
            ) && observations_view(r) == listing_observations(
                *source,
                string_table_view(*metas),
                string_table_view(*textures),
                ps,
            ) + listing_observations(
                *source,
                string_table_view(*metas),
                string_table_view(*textures),
                us,
            ),
{
    let mut obs = RuntimeAtlasObservations::new();
    observe_listing(&mut obs, source, "Assets/Prefab/", metas, textures);
    let ghost first = observations_view(obs);
    observe_listing(&mut obs, source, "Assets/Resources/ui/", metas, textures);
    obs
}

} // verus!
