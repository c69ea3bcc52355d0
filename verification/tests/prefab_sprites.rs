use badpiggies_editor::data::assets::atlas_materials::AtlasMaterialTable;
use badpiggies_editor::data::prefab_sprites::{
    is_sprite_behaviour, keeps_layers, multi_sprite_index, node_layers, skip_special_glow,
    SPRITE_SCRIPT_GUID,
};

fn atlases() -> AtlasMaterialTable {
    AtlasMaterialTable {
        entries: vec![("ce5a9931".to_string(), "IngameAtlas.png".to_string())],
    }
}

#[test]
fn sprite_components_need_the_sprite_script_and_an_id() {
    assert!(is_sprite_behaviour(Some(SPRITE_SCRIPT_GUID), Some("abc")));
    assert!(!is_sprite_behaviour(Some(SPRITE_SCRIPT_GUID), None));
    assert!(!is_sprite_behaviour(Some("0123"), Some("abc")));
    assert!(!is_sprite_behaviour(None, Some("abc")));
}

#[test]
fn glow_is_skipped_only_under_goal_areas_and_star_boxes() {
    assert!(skip_special_glow("Glow", "GoalArea_01"));
    assert!(skip_special_glow("Glow", "BoxChallenge"));
    assert!(skip_special_glow("Glow", "DynamicBoxChallenge"));
    assert!(skip_special_glow("Glow", "DynamicStarBox"));
    assert!(!skip_special_glow("Glow", "Pig"));
    assert!(!skip_special_glow("Shine", "GoalArea_01"));
}

#[test]
fn layers_need_an_active_object_and_an_enabled_renderer() {
    let t = atlases();
    let r = node_layers(&t, "Pig", Some(("Body", true)), true, Some(("ce5a9931ffff", true)), true);
    assert_eq!(r.sprite_atlas.as_deref(), Some("IngameAtlas.png"));
    assert!(r.unmanaged && r.descend);
    // disabled renderer: no layer, children still visited
    let r = node_layers(&t, "Pig", Some(("Body", true)), true, Some(("ce5a9931ffff", false)), true);
    assert!(r.sprite_atlas.is_none() && !r.unmanaged && r.descend);
    // unknown atlas: no sprite layer
    let r = node_layers(&t, "Pig", Some(("Body", true)), true, Some(("00000000", true)), false);
    assert!(r.sprite_atlas.is_none() && !r.unmanaged);
    // inactive or missing object hides its children
    let r = node_layers(&t, "Pig", Some(("Body", false)), true, Some(("ce5a9931", true)), true);
    assert!(r.sprite_atlas.is_none() && !r.unmanaged && !r.descend);
    assert!(!node_layers(&t, "Pig", None, true, None, true).descend);
    // the special glow gives no layer
    let r = node_layers(&t, "GoalArea_01", Some(("Glow", true)), true, Some(("ce5a9931", true)), true);
    assert!(r.sprite_atlas.is_none() && !r.unmanaged && r.descend);
}

#[test]
fn prefabs_keep_several_layers_and_goal_areas_any() {
    assert!(keeps_layers("Icon_Pig_01", 3));
    assert!(!keeps_layers("Icon_Pig_01", 1));
    assert!(keeps_layers("GoalArea_02", 1));
    assert!(!keeps_layers("GoalArea_02", 0));
}

#[test]
fn layers_are_found_by_name_or_without_the_instance_suffix() {
    let names = vec!["Icon_Pig_01".to_string(), "GoalArea_01".to_string()];
    assert_eq!(multi_sprite_index(&names, "GoalArea_01"), Some(1));
    assert_eq!(multi_sprite_index(&names, "Icon_Pig_01 (2)"), Some(0));
    assert_eq!(multi_sprite_index(&names, "Other (1)"), None);
}
