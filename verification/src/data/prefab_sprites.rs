//! Prefab multi-sprite layers: which child sprites of a prefab become baked
//! layers, and which prefabs keep them and under what names they are found.
//! The quads of the layers are floating point and are not held here.

use vstd::prelude::*;
use crate::data::assets::atlas_materials::{
    atlas_for_material_guid, guid_prefix_spec, last_value, table_view, AtlasMaterialTable,
};
use crate::text::{
    chars_eq, contains, contains_lit, copy_range, eq_lit, find, find_lit, starts_with,
    starts_with_lit, str_chars,
};

verus! {

/// The script of the runtime sprite component.
pub const SPRITE_SCRIPT_GUID: &'static str = "eaa85264a31f76994888187c4d3a9fb9";

/// A behaviour is a sprite component when its script is the sprite script
/// and it names a sprite id; any other behaviour can only be an unmanaged
/// atlas sprite (which its numbers decide).
pub open spec fn is_sprite_behaviour_spec(
    script_guid: Option<Seq<char>>,
    sprite_id: Option<Seq<char>>,
) -> bool {
    script_guid == Some(SPRITE_SCRIPT_GUID@) && sprite_id is Some
}

pub fn is_sprite_behaviour(script_guid: Option<&str>, sprite_id: Option<&str>) -> (r: bool)
    ensures
        r == is_sprite_behaviour_spec(
            match script_guid {
                Some(g) => Some(g@),
                None => None,
            },
            match sprite_id {
                Some(s) => Some(s@),
                None => None,
            },
        ),
{
    match (script_guid, sprite_id) {
        (Some(g), Some(_)) => eq_lit(str_chars(g).as_slice(), SPRITE_SCRIPT_GUID),
        _ => false,
    }
}

/// The `Glow` child of goal areas, box challenges and star boxes is not a
/// layer of the prefab.
pub open spec fn skip_special_glow_spec(object_name: Seq<char>, root_name: Seq<char>) -> bool {
    object_name == "Glow"@ && (starts_with(root_name, "GoalArea"@) || root_name == "BoxChallenge"@
        || root_name == "DynamicBoxChallenge"@ || contains(root_name, "StarBox"@))
}

pub fn skip_special_glow(object_name: &str, root_name: &str) -> (r: bool)
    ensures
        r == skip_special_glow_spec(object_name@, root_name@),
{
    let o = str_chars(object_name);
    let n = str_chars(root_name);
    let n = n.as_slice();
    eq_lit(o.as_slice(), "Glow") && (starts_with_lit(n, "GoalArea") || eq_lit(n, "BoxChallenge")
        || eq_lit(n, "DynamicBoxChallenge") || contains_lit(n, "StarBox"))
}

/// What one transform of a prefab gives: the atlas of its sprite layer, if
/// it has one; whether it has an unmanaged sprite layer; and whether the
/// walk goes on to its children.
pub struct NodeLayers {
    pub sprite_atlas: Option<String>,
    pub unmanaged: bool,
    pub descend: bool,
}

/// The layers of a transform's game object. `game_object` is its name and
/// whether it is active (none when the prefab does not hold it);
/// `runtime_sprite` tells whether it has a sprite component whose sprite id
/// is a known runtime sprite; `renderer` is its renderer's material GUID and
/// whether it is enabled; `unmanaged` whether it has an unmanaged sprite.
/// An object that is missing or inactive gives nothing and hides its
/// children; a skipped `Glow` gives no layer; a sprite layer needs an
/// enabled renderer whose material has an atlas, an unmanaged one an
/// enabled renderer.
pub open spec fn node_layers_spec(
    atlases: Seq<(Seq<char>, Seq<char>)>,
    root_name: Seq<char>,
    game_object: Option<(Seq<char>, bool)>,
    runtime_sprite: bool,
    renderer: Option<(Seq<char>, bool)>,
    unmanaged: bool,
) -> (Option<Seq<char>>, bool, bool) {
    match game_object {
        Some((name, true)) => {
            let skip = skip_special_glow_spec(name, root_name);
            let enabled = renderer matches Some((_, e)) && e;
            let atlas = match renderer {
                Some((g, _)) => last_value(atlases, guid_prefix_spec(g)),
                None => None,
            };
            (
                if !skip && runtime_sprite && enabled {
                    atlas
                } else {
                    None
                },
                !skip && enabled && unmanaged,
                true,
            )
        },
        _ => (None, false, false),
    }
}

pub fn node_layers(
    atlases: &AtlasMaterialTable,
    root_name: &str,
    game_object: Option<(&str, bool)>,
    runtime_sprite: bool,
    renderer: Option<(&str, bool)>,
    unmanaged: bool,
) -> (r: NodeLayers)
    ensures
        (
            match r.sprite_atlas {
                Some(a) => Some(a@),
                None => None,
            },
            r.unmanaged,
            r.descend,
        ) == node_layers_spec(
            table_view(*atlases),
            root_name@,
            match game_object {
                Some((n, a)) => Some((n@, a)),
                None => None,
            },
            runtime_sprite,
            match renderer {
                Some((g, e)) => Some((g@, e)),
                None => None,
            },
            unmanaged,
        ),
{
    match game_object {
        Some((name, true)) => {
            let skip = skip_special_glow(name, root_name);
            let (enabled, atlas) = match renderer {
                Some((g, e)) => (e, atlas_for_material_guid(atlases, g)),
                None => (false, None),
            };
            let sprite_atlas = if !skip && runtime_sprite && enabled {
                match atlas {
                    Some(a) => Some(a.to_string()),
                    None => None,
                }
            } else {
                None
            };
            NodeLayers { sprite_atlas, unmanaged: !skip && enabled && unmanaged, descend: true }
        },
        _ => NodeLayers { sprite_atlas: None, unmanaged: false, descend: false },
    }
}

/// A prefab keeps its baked layers when it has more than one, or, for a
/// goal area, any.
pub open spec fn keeps_layers_spec(prefab_name: Seq<char>, layer_count: nat) -> bool {
    layer_count > 1 || (starts_with(prefab_name, "GoalArea"@) && layer_count > 0)
}

pub fn keeps_layers(prefab_name: &str, layer_count: usize) -> (r: bool)
    ensures
        r == keeps_layers_spec(prefab_name@, layer_count as nat),
{
    layer_count > 1 || (starts_with_lit(str_chars(prefab_name).as_slice(), "GoalArea")
        && layer_count > 0)
}

/// Position of the last name equal to `n`.
pub open spec fn last_index(names: Seq<Seq<char>>, n: Seq<char>) -> Option<int>
    decreases names.len(),
{
    if names.len() == 0 {
        None
    } else if names.last() == n {
        Some(names.len() - 1)
    } else {
        last_index(names.drop_last(), n)
    }
}

/// A name up to its first ` (` (an instance suffix such as ` (1)`).
pub open spec fn before_instance_suffix(n: Seq<char>) -> Seq<char> {
    match find(n, " ("@) {
        Some(i) => n.take(i),
        None => n,
    }
}

/// The prefab whose layers a name finds: the prefab of that name, else
/// that of the name without its instance suffix.
pub open spec fn multi_sprite_index_spec(names: Seq<Seq<char>>, n: Seq<char>) -> Option<int> {
    match last_index(names, n) {
        Some(i) => Some(i),
        None => last_index(names, before_instance_suffix(n)),
    }
}

fn last_index_exec(names: &[String], n: &[char]) -> (r: Option<usize>)
    ensures
        match r {
            Some(i) => last_index(names@.map_values(|s: String| s@), n@) == Some(i as int),
            None => last_index(names@.map_values(|s: String| s@), n@) is None,
        },
{
    let ghost nv = names@.map_values(|s: String| s@);
    let mut i: usize = names.len();
    assert(nv.take(i as int) =~= nv);
    while i > 0
        invariant
            i <= names@.len(),
            nv == names@.map_values(|s: String| s@),
            last_index(nv, n@) == last_index(nv.take(i as int), n@),
        decreases i,
    {
        assert(nv.take(i as int).drop_last() =~= nv.take(i - 1));
        assert(nv.take(i as int).last() == names@[i - 1]@);
        let c = str_chars(names[i - 1].as_str());
        if chars_eq(c.as_slice(), n) {
            return Some(i - 1);
        }
        i = i - 1;
    }
    None
}

/// Finds the layers of a prefab name among the names of the prefabs that
/// keep layers.
pub fn multi_sprite_index(names: &[String], name: &str) -> (r: Option<usize>)
    ensures
        match r {
            Some(i) => multi_sprite_index_spec(names@.map_values(|s: String| s@), name@) == Some(
                i as int,
            ),
            None => multi_sprite_index_spec(names@.map_values(|s: String| s@), name@) is None,
        },
{
    let n = str_chars(name);
    match last_index_exec(names, n.as_slice()) {
        Some(i) => Some(i),
        None => {
            proof {
                reveal_strlit(" (");
            }
            let base = match find_lit(n.as_slice(), " (") {
                Some(k) => copy_range(n.as_slice(), 0, k),
                None => copy_range(n.as_slice(), 0, n.len()),
            };
            assert(n@.subrange(0, n@.len() as int) =~= n@);
            assert(base@ == before_instance_suffix(name@));
            last_index_exec(names, base.as_slice())
        },
    }
}

} // verus!
