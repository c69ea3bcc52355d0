//! Asset-derived lookups: terrain textures, background themes, atlas materials.

pub mod atlas_materials;
pub mod embedded;
pub mod terrain;
pub mod theme;
pub mod unitypackage_loader;

use vstd::prelude::*;

verus! {

/// The texture of a particle-effect material, by its GUID: glow, wind, fan
/// and several world particle prefabs share the `Particles_Sheet_01`
/// material family.
pub fn effect_texture_name_for_material_guid(material_guid: &str) -> (r: Option<&'static str>)
    ensures
        material_guid@ == "884b9b90b5f2e49343f6ec0608bc01c9"@ ==> (r matches Some(t) && t@
            == "Particles_Sheet_01.png"@),
        material_guid@ != "884b9b90b5f2e49343f6ec0608bc01c9"@ ==> r is None,
{
    let g = crate::text::str_chars(material_guid);
    if crate::text::eq_lit(g.as_slice(), "884b9b90b5f2e49343f6ec0608bc01c9") {
        Some("Particles_Sheet_01.png")
    } else {
        None
    }
}

} // verus!
