use badpiggies_editor::assets::{
    detect_bg_theme, ep6_theme_for_key, sandbox_theme_for_key, should_skip_render,
    skip_props_tint,
};

#[test]
fn episode6_levels_use_the_loader_table() {
    assert_eq!(ep6_theme_for_key("episode_6_level_5_data"), Some("MayaCave2Dark"));
    assert_eq!(ep6_theme_for_key("Episode_6_Level_IX_data"), Some("Maya"));
    assert_eq!(ep6_theme_for_key("episode_6_level_13_data"), Some("MayaTemple"));
    assert_eq!(ep6_theme_for_key("episode_6_level_40_data"), None);
    assert_eq!(sandbox_theme_for_key("Episode_6_Ice Sandbox_data"), Some("MayaTemple"));
    assert_eq!(sandbox_theme_for_key("Level_Sandbox_01_data"), None);
}

#[test]
fn object_names_select_the_first_matching_pattern() {
    let names = vec!["Props".to_string(), "Background_MM_Cave_01_SET_DARK".to_string()];
    assert_eq!(detect_bg_theme("level_key", &names), Some("MayaCaveDark"));
    let names = vec!["Background_Jungle_01_SET".to_string(), "CaveGrid".to_string()];
    assert_eq!(detect_bg_theme("level_key", &names), Some("Jungle"));
    assert_eq!(detect_bg_theme("episode_6_level_10_data", &names), Some("MayaHigh"));
    assert_eq!(detect_bg_theme("level_key", &[]), None);
}

#[test]
fn legacy_name_rules() {
    assert!(skip_props_tint("Glow"));
    assert!(skip_props_tint("Crystal_01"));
    assert!(!skip_props_tint("Rock_01"));
    assert!(should_skip_render("CloudNightSet"));
    assert!(should_skip_render("LevelManager"));
    assert!(should_skip_render("Props"));
    assert!(!should_skip_render("GoalArea_01"));
}
