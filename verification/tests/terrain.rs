use badpiggies_editor::assets;
use badpiggies_editor::data::assets::terrain::{
    get_terrain_fill_texture, get_terrain_splat0, get_terrain_splat1, get_terrain_splat1_for_level,
    is_dark_terrain, terrain_splat1_prefers_prefab_over_level_refs,
};

#[test]
fn mm_maya_splat1_defaults_match_prefab_border_textures_for_cave_dark_groups() {
    assert_eq!(assets::get_terrain_splat1("e2dTerrainBase_MM_rock"), Some("Border.png"));
    assert_eq!(assets::get_terrain_splat1("e2dTerrainBase_MM_sand"), Some("Border.png"));
    assert_eq!(
        assets::get_terrain_splat1("e2dTerrainBase_MM_TempleDarkRock"),
        Some("Border_Maya_Cave.png")
    );
    assert_eq!(assets::get_terrain_splat1("e2dTerrainDark_MM_rock"), Some("Border.png"));
}

#[test]
fn mm_maya_splat1_level_rule_keeps_prefab_border_textures() {
    assert_eq!(
        assets::get_terrain_splat1_for_level("episode_6_level_5_data", "e2dTerrainBase_MM_sand"),
        Some("Border.png")
    );
    assert_eq!(
        assets::get_terrain_splat1_for_level(
            "Episode_6_Dark Sandbox_data",
            "e2dTerrainBase_MM_rock"
        ),
        Some("Border.png")
    );
    assert_eq!(
        assets::get_terrain_splat1_for_level("episode_6_level_10_data", "e2dTerrainBase_MM_rock"),
        Some("Border.png")
    );
    assert_eq!(
        assets::get_terrain_splat1_for_level("episode_6_level_18_data", "e2dTerrainDark_MM"),
        Some("Border_Maya_Cave.png")
    );
    assert_eq!(
        assets::get_terrain_splat1_for_level("episode_6_level_18_data", "e2dTerrainDark_MM_rock"),
        Some("Border.png")
    );
}

#[test]
fn mm_maya_cave_dark_groups_override_shared_level_refs() {
    assert!(assets::terrain_splat1_prefers_prefab_over_level_refs("e2dTerrainBase_MM_rock"));
    assert!(assets::terrain_splat1_prefers_prefab_over_level_refs("e2dTerrainBase_MM_sand"));
    assert!(assets::terrain_splat1_prefers_prefab_over_level_refs(
        "e2dTerrainBase_MM_TempleDarkRock"
    ));
    assert!(assets::terrain_splat1_prefers_prefab_over_level_refs("e2dTerrainDark_MM_rock"));
    assert!(!assets::terrain_splat1_prefers_prefab_over_level_refs("e2dTerrainBase_MM_Ice"));
}

#[test]
fn mm_maya_splat1_defaults_match_prefab_curve_textures() {
    assert_eq!(get_terrain_splat1("e2dTerrainBase_MM_rock"), Some("Border.png"));
    assert_eq!(get_terrain_splat1("e2dTerrainBase_MM_sand"), Some("Border.png"));
    assert_eq!(
        get_terrain_splat1("e2dTerrainBase_MM_TempleDarkRock"),
        Some("Border_Maya_Cave.png")
    );
    assert_eq!(get_terrain_splat1("e2dTerrainDark_MM_rock"), Some("Border.png"));
}

#[test]
fn night_outline_defaults_match_prefab_curve_textures() {
    assert_eq!(
        get_terrain_splat1("e2dTerrainBase_05_night"),
        Some("Ground_Rocks_Outline_Texture_03.png")
    );
    assert_eq!(
        get_terrain_splat1("e2dTerrainDark_03"),
        Some("Ground_Rocks_Outline_Texture_03.png")
    );
    assert_eq!(
        get_terrain_splat1_for_level("scenario_12_data", "e2dTerrainBase_05_night"),
        Some("Ground_Rocks_Outline_Texture_03.png")
    );
}

#[test]
fn mm_maya_splat1_level_fallback_uses_prefab_defaults() {
    assert_eq!(
        get_terrain_splat1_for_level("episode_6_level_5_data", "e2dTerrainBase_MM_sand"),
        Some("Border.png")
    );
    assert_eq!(
        get_terrain_splat1_for_level("Episode_6_Dark Sandbox_data", "e2dTerrainBase_MM_rock"),
        Some("Border.png")
    );
    assert_eq!(
        get_terrain_splat1_for_level("episode_6_level_10_data", "e2dTerrainBase_MM_rock"),
        Some("Border.png")
    );
    assert_eq!(
        get_terrain_splat1_for_level("episode_6_level_18_data", "e2dTerrainDark_MM"),
        Some("Border_Maya_Cave.png")
    );
    assert_eq!(
        get_terrain_splat1_for_level("episode_6_level_18_data", "e2dTerrainDark_MM_rock"),
        Some("Border.png")
    );
}

#[test]
fn mm_maya_cave_dark_groups_keep_prefab_border_splat1() {
    assert!(terrain_splat1_prefers_prefab_over_level_refs("e2dTerrainBase_MM_rock"));
    assert!(terrain_splat1_prefers_prefab_over_level_refs("e2dTerrainBase_MM_sand"));
    assert!(terrain_splat1_prefers_prefab_over_level_refs("e2dTerrainBase_MM_TempleDarkRock"));
    assert!(terrain_splat1_prefers_prefab_over_level_refs("e2dTerrainDark_MM_rock"));
    assert!(!terrain_splat1_prefers_prefab_over_level_refs("e2dTerrainBase_MM_Ice"));
}

#[test]
fn terrain_names_are_normalized_before_lookup() {
    // transition suffix, EP annotation, numeric word and _X suffix
    assert_eq!(
        get_terrain_fill_texture("e2dTerrainBase_02 _ to e2dTerrainBase_04"),
        Some("Ground_Rocks_Texture_02.png")
    );
    assert_eq!(get_terrain_fill_texture("e2dTerrainBase EP1"), Some("Ground_Rocks_Texture.png"));
    assert_eq!(get_terrain_fill_texture("e2dTerrainBase 131x3"), Some("Ground_Rocks_Texture.png"));
    assert_eq!(get_terrain_fill_texture("e2dTerrainBase_04_X"), Some("Ground_Rocks_Texture_04.png"));
    assert_eq!(get_terrain_fill_texture("  e2dTerrainBase_morning -  "), Some("Ground_Rocks_Texture_06.png"));
    assert_eq!(get_terrain_fill_texture("e2dTerrainUnknown"), None);
}

#[test]
fn dark_variants_fall_back_to_their_base_textures() {
    assert!(is_dark_terrain("e2dTerrainDark_cave"));
    assert!(!is_dark_terrain("e2dTerrainBase"));
    assert_eq!(get_terrain_fill_texture("e2dTerrainDark_cave"), Some("Ground_Rocks_Texture.png"));
    assert_eq!(get_terrain_splat0("e2dTerrainDark morning"), Some("Ground_Grass_Texture_3.png"));
    assert_eq!(get_terrain_splat0("e2dTerrainDark_MM_rock"), Some("Border_Maya_Cave.png"));
    assert_eq!(
        get_terrain_fill_texture("e2dTerrainDark_MM_rock"),
        Some("Ground_Temple_Dark_Texture_02.png")
    );
}

#[test]
fn legacy_outline_table_keeps_its_night_texture() {
    assert_eq!(
        assets::get_terrain_splat1("e2dTerrainBase_05_night"),
        Some("Ground_Rocks_Outline_Texture_05.png")
    );
    assert_eq!(
        assets::get_terrain_fill_texture("e2dTerrainDark_05_night(150)"),
        Some("Ground_Rocks_Texture.png")
    );
}
