use badpiggies_editor::data::assets::atlas_materials::{
    atlas_for_material_guid, build_atlas_by_material_guid, guid_prefix,
};
use badpiggies_editor::data::assets::effect_texture_name_for_material_guid;

/// An `AtlasMaterials` prefab laid out as the game's is: five material
/// lists, each naming the materials of the three in-game atlases in order.
fn atlas_materials_prefab() -> String {
    let mut text = String::from("%YAML 1.1\n--- !u!114 &11400000\nMonoBehaviour:\n  m_Name: AtlasMaterials\n");
    let sections = [
        ("normalMaterials", ["ce5a9931cec8f4b84741e1391306eb66", "4ab535f334efc6a54d4951c79cf5a28a", "7975d66d65c10f9843645cf0df4004c6"]),
        ("dimmedRenderQueueMaterials", ["11111111aaaa", "22222222bbbb", "33333333cccc"]),
        ("renderQueueMaterials", ["44444444dddd", "55555555eeee", "66666666ffff"]),
        ("partQueueZMaterials", ["77777777aaaa", "88888888bbbb", "99999999cccc"]),
        ("grayMaterials", ["aaaaaaaa1111", "bbbbbbbb2222", "cccccccc3333"]),
    ];
    for (name, guids) in sections {
        text.push_str(&format!("  {name}:\n"));
        for guid in guids {
            text.push_str(&format!(
                "  - {{fileID: 2100000, guid: {guid}, type: 2}}\n"
            ));
        }
    }
    text.push_str("  m_Script: {fileID: 11500000, guid: 0123456789abcdef, type: 3}\n");
    text
}

#[test]
fn atlasmaterials_prefab_drives_ingame_atlas_mapping() {
    let table = build_atlas_by_material_guid(&atlas_materials_prefab());
    assert_eq!(
        atlas_for_material_guid(&table, "ce5a9931cec8f4b84741e1391306eb66"),
        Some("IngameAtlas.png")
    );
    assert_eq!(
        atlas_for_material_guid(&table, "4ab535f334efc6a54d4951c79cf5a28a"),
        Some("IngameAtlas2.png")
    );
    assert_eq!(
        atlas_for_material_guid(&table, "7975d66d65c10f9843645cf0df4004c6"),
        Some("IngameAtlas3.png")
    );
}

#[test]
fn atlas_lookup_uses_the_first_eight_guid_characters() {
    let table = build_atlas_by_material_guid(&atlas_materials_prefab());
    assert_eq!(atlas_for_material_guid(&table, "ce5a9931"), Some("IngameAtlas.png"));
    assert_eq!(atlas_for_material_guid(&table, "ce5a9931ffffffff"), Some("IngameAtlas.png"));
    assert_eq!(atlas_for_material_guid(&table, "bbbbbbbb2222"), Some("IngameAtlas2.png"));
    assert_eq!(atlas_for_material_guid(&table, "ce5a993"), None);
    assert_eq!(atlas_for_material_guid(&table, "deadbeefdeadbeef"), None);
}

#[test]
fn only_the_first_three_materials_of_a_list_and_only_known_lists_count() {
    let text = "normalMaterials:\n- {guid: aaaaaaaa01}\n- {guid: bbbbbbbb02}\n- {guid: cccccccc03}\n- {guid: dddddddd04}\notherMaterials:\n- {guid: eeeeeeee05}\ngrayMaterials:\n- no guid here\n- {guid: ffffffff06}\n";
    let table = build_atlas_by_material_guid(text);
    assert_eq!(atlas_for_material_guid(&table, "cccccccc"), Some("IngameAtlas3.png"));
    assert_eq!(atlas_for_material_guid(&table, "dddddddd"), None);
    assert_eq!(atlas_for_material_guid(&table, "eeeeeeee"), None);
    assert_eq!(atlas_for_material_guid(&table, "ffffffff"), Some("IngameAtlas.png"));
    assert_eq!(table.entries.len(), 4);
}

#[test]
fn later_lists_override_earlier_ones_for_the_same_prefix() {
    let text = "normalMaterials:\n- {guid: 12345678aa}\ngrayMaterials:\n- {guid: 99999999}\n- {guid: 12345678bb}\n";
    let table = build_atlas_by_material_guid(text);
    assert_eq!(atlas_for_material_guid(&table, "12345678"), Some("IngameAtlas2.png"));
}

#[test]
fn guid_prefix_is_eight_bytes_or_the_whole_guid() {
    let p: String = guid_prefix(&"0123456789".chars().collect::<Vec<_>>()).into_iter().collect();
    assert_eq!(p, "01234567");
    let p: String = guid_prefix(&"abc".chars().collect::<Vec<_>>()).into_iter().collect();
    assert_eq!(p, "abc");
    // no char boundary at byte 8: the whole text
    let p: String = guid_prefix(&"abcdefgé".chars().collect::<Vec<_>>()).into_iter().collect();
    assert_eq!(p, "abcdefgé");
}

#[test]
fn shared_particle_effect_material_guid_maps_to_particles_sheet() {
    assert_eq!(
        effect_texture_name_for_material_guid("884b9b90b5f2e49343f6ec0608bc01c9"),
        Some("Particles_Sheet_01.png")
    );
    assert_eq!(effect_texture_name_for_material_guid("884b9b90"), None);
}
