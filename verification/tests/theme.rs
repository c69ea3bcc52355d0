use badpiggies_editor::data::bg_data::BgLayer;
use badpiggies_editor::data::assets::embedded::{list_pathnames, AssetSource, EmbeddedFile, ProjectAssets};
use badpiggies_editor::data::assets::theme::{
    build_background_prefab_names, build_background_theme_aliases,
    build_prefab_basic_visuals_by_name, build_prefab_material_alpha_blends_by_prefab,
    build_prefab_material_colors_by_prefab, build_prefab_skip_props_tint_by_root_components,
    build_prefab_skip_render_by_root_scripts, build_props_alpha_skip_names, detect_bg_theme,
    is_beach_ground_sprite, is_grass_fill_ground_sprite, is_ground_color_candidate_sprite,
    is_near_fill_ground_sprite, is_sky_backdrop_sprite, props_sprite_has_only_soft_alpha,
    get_object_color, BgSpriteTraits, ObjectColor, PrefabTable, normalize_bg_name, prefab_asset_lookup, prefab_has_mesh_renderer,
    prefab_material_guid, props_tint_is_alpha_blend, should_skip_render, skip_props_tint,
    theme_name_for_background_prefab, PrefabFlags, PrefabRules, ThemeAliases,
};

const BG_DIR: &str = "Assets/Resources/environment/background/";

const WITH_RENDERER: &str = "%YAML 1.1\n--- !u!1 &100\nGameObject:\n  m_Name: Prop\n--- !u!23 &2300\nMeshRenderer:\n  m_Enabled: 1\n  m_Materials:\n  - {fileID: 2100000, guid: 5a3c1f0e9d8b7a6c5d4e3f2a1b0c9d8e, type: 2}\n";
const OPAQUE_RENDERER: &str = "%YAML 1.1\n--- !u!1 &100\nGameObject:\n  m_Name: Prop\n--- !u!23 &2300\nMeshRenderer:\n  m_Materials:\n  - {fileID: 2100000, guid: 0b1c2d3e4f5a6b7c8d9e0f1a2b3c4d5e, type: 2}\n";
const MUSHROOM_RENDERER: &str = "%YAML 1.1\n--- !u!1 &100\nGameObject:\n  m_Name: Mushroom\n--- !u!23 &2300\nMeshRenderer:\n  m_Materials:\n  - {fileID: 2100000, guid: be3a1c2d00000000000000000000aaaa, type: 2}\n";
const TWIG_RENDERER: &str = "%YAML 1.1\n--- !u!1 &100\nGameObject:\n  m_Name: Twig\n--- !u!23 &2300\nMeshRenderer:\n  m_Materials:\n  - {fileID: 2100000, guid: 7f1e2d3c00000000000000000000bbbb, type: 2}\n";
const NO_RENDERER: &str = "%YAML 1.1\n--- !u!1 &100\nGameObject:\n  m_Name: Logic\n--- !u!4 &400\nTransform:\n  m_Children: []\n";

/// A project asset set laid out as the game's: one `<guid>/pathname` and
/// `<guid>/asset` pair per asset.
fn project(assets: &[(&str, &str)]) -> AssetSource {
    let mut files = Vec::new();
    for (i, (pathname, text)) in assets.iter().enumerate() {
        let guid = format!("{:032x}", i + 1);
        files.push(EmbeddedFile { path: format!("{guid}/pathname"), data: pathname.as_bytes().to_vec() });
        files.push(EmbeddedFile { path: format!("{guid}/asset"), data: text.as_bytes().to_vec() });
    }
    AssetSource::embedded(ProjectAssets { files })
}

fn fixture() -> AssetSource {
    let bg = |name: &str| format!("{BG_DIR}{name}.prefab");
    let prefab = |name: &str| format!("Assets/Prefab/{name}.prefab");
    let mut assets: Vec<(String, &str)> = Vec::new();
    for name in [
        "BackgroundObject",
        "Background_Cave_01_SET 1",
        "Background_Forest_01_SET 1",
        "Background_Halloween",
        "Background_Jungle_01_SET",
        "Background_MM_01_SET",
        "Background_MM_Cave_02_SET_Dark",
        "Background_Night_01_SET 1",
        "Background_Plateau_01_SET",
    ] {
        assets.push((bg(name), NO_RENDERER));
    }
    for name in [
        "CloudJungleSet",
        "CloudLPASet",
        "CloudNightSet",
        "CameraSystem",
        "LevelStart",
        "LevelManager",
        "LitArea",
        "Tutorial",
        "RotationTutorial",
        "AreaAchievement",
        "CollectBoxesAchievement",
    ] {
        assets.push((prefab(name), NO_RENDERER));
    }
    for name in ["GoalArea_01", "BoxChallenge", "DynamicBoxChallenge"] {
        assets.push((prefab(name), WITH_RENDERER));
    }
    for name in ["Mushroom_06", "Cave_Mushroom_06"] {
        assets.push((prefab(name), MUSHROOM_RENDERER));
    }
    assets.push((prefab("Twig_1"), TWIG_RENDERER));
    assets.push((prefab("Shell_01"), OPAQUE_RENDERER));
    let refs: Vec<(&str, &str)> = assets.iter().map(|(p, t)| (p.as_str(), *t)).collect();
    project(&refs)
}

fn aliases() -> ThemeAliases {
    build_background_theme_aliases(&fixture())
}

fn theme(name: &str) -> Option<String> {
    theme_name_for_background_prefab(&aliases(), name)
}

fn flags(entries: &[&str]) -> PrefabFlags {
    PrefabFlags { entries: entries.iter().map(|n| (n.to_string(), true)).collect() }
}

fn strings(v: &[&str]) -> Vec<String> {
    v.iter().map(|s| s.to_string()).collect()
}

/// The root script GUIDs of some prefabs.
fn root_scripts() -> Vec<(String, Vec<String>)> {
    vec![
        ("Assets/Prefab/BoxChallenge.prefab".to_string(), strings(&["6229298ca21dd3894003b3802b06d98e"])),
        (
            "Assets/Prefab/DynamicBoxChallenge.prefab".to_string(),
            strings(&["0000aaaa", "7b438279c3f772954a60174359d89e4c"]),
        ),
        ("Assets/Prefab/GoalArea_01.prefab".to_string(), strings(&["0000aaaa"])),
        ("Assets/Prefab/Empty.prefab".to_string(), Vec::new()),
    ]
}

/// The root component suffixes of some prefabs.
fn root_components() -> Vec<(String, Vec<String>)> {
    vec![
        ("Assets/Prefab/Secret_01.prefab".to_string(), strings(&["Transform", "PartSecret"])),
        ("Assets/Prefab/LitCrystal_01.prefab".to_string(), strings(&["PointLightSource"])),
        ("Assets/Prefab/Crystal_01.prefab".to_string(), strings(&["Transform", "SpriteRenderer"])),
    ]
}

/// Alpha statistics of some props sprites.
fn props_alpha() -> Vec<(String, String, Option<(u8, u64, u64, u64)>)> {
    let props = "Props_Generic_Sheet_01.png".to_string();
    vec![
        ("Glow_01".to_string(), props.clone(), Some((100, 40, 0, 0))),
        ("Star_01".to_string(), props.clone(), Some((255, 40, 30, 20))),
        ("Rock_01".to_string(), props, Some((0, 0, 0, 0))),
        ("Crystal_01".to_string(), "IngameAtlas.png".to_string(), Some((100, 40, 0, 0))),
        ("GoalSprite".to_string(), "Props_Generic_Sheet_01.png".to_string(), None),
    ]
}

fn rules() -> PrefabRules {
    let src = fixture();
    let material_blends = PrefabFlags {
        entries: vec![
            ("5a3c1f0e".to_string(), true),
            ("be3a1c2d".to_string(), true),
            ("7f1e2d3c".to_string(), true),
            ("0b1c2d3e".to_string(), false),
        ],
    };
    PrefabRules {
        basic_visuals: build_prefab_basic_visuals_by_name(&src),
        background_names: build_background_prefab_names(&src),
        skip_render_by_root_scripts: build_prefab_skip_render_by_root_scripts(&root_scripts()),
        skip_props_tint_by_root_components: build_prefab_skip_props_tint_by_root_components(
            &root_components(),
        ),
        props_alpha_skip_names: build_props_alpha_skip_names(&props_alpha()),
        alpha_blends: build_prefab_material_alpha_blends_by_prefab(&src, &material_blends),
    }
}

fn normalized(name: &str) -> String {
    normalize_bg_name(name).into_iter().collect()
}

#[test]
fn background_theme_name_normalizes_known_name_forms() {
    assert_eq!(
        theme("background_mm_cave_02_set_dark.prefab").as_deref(),
        Some("MayaCave2Dark")
    );
    assert_eq!(theme("Background_Cave_01_SET 1").as_deref(), Some("Cave"));
    assert_eq!(theme("background_forest_01_set 1").as_deref(), Some("Morning"));
    assert_eq!(theme("MayaHigh").as_deref(), Some("MayaHigh"));
    assert_eq!(theme("CloudJungleSet").as_deref(), Some("Jungle"));
    assert_eq!(theme("CloudLPASet").as_deref(), Some("Maya"));
    assert_eq!(theme("backgroundobject"), None);
}

#[test]
fn embedded_background_prefab_paths_resolve_to_theme_names() {
    let src = fixture();
    let aliases = build_background_theme_aliases(&src);
    for prefab_path in list_pathnames(&src, BG_DIR, ".prefab") {
        let prefab_name = std::path::Path::new(&prefab_path)
            .file_stem()
            .and_then(|stem| stem.to_str())
            .expect("background prefab stem");

        if normalized(prefab_name) == "backgroundobject" {
            assert_eq!(theme_name_for_background_prefab(&aliases, &prefab_path), None);
            continue;
        }

        assert!(
            theme_name_for_background_prefab(&aliases, &prefab_path).is_some(),
            "missing theme alias for {prefab_path}"
        );
        assert!(
            theme_name_for_background_prefab(&aliases, prefab_name).is_some(),
            "missing theme alias for {prefab_name}"
        );
    }
}

#[test]
fn object_name_fallback_ignores_generic_cave_names() {
    let names = vec!["CaveGrid".to_string(), "Background_Jungle_01_SET".to_string()];

    assert_eq!(detect_bg_theme(&aliases(), &names, None, None).as_deref(), Some("Jungle"));
}

#[test]
fn object_name_fallback_keeps_jungle_ahead_of_legacy_cave_hint() {
    let names = vec![
        "Background_Cave_01_SET 1".to_string(),
        "Background_Jungle_01_SET".to_string(),
    ];

    assert_eq!(detect_bg_theme(&aliases(), &names, None, None).as_deref(), Some("Jungle"));
}

#[test]
fn background_override_names_come_before_object_names() {
    let names = vec!["Background_Jungle_01_SET".to_string()];
    let a = aliases();
    assert_eq!(
        detect_bg_theme(&a, &names, Some("Background_MM_Cave_02_SET_Dark"), None).as_deref(),
        Some("MayaCave2Dark")
    );
    assert_eq!(
        detect_bg_theme(&a, &names, Some("UnknownPrefab"), Some("Background_MM_01_SET")).as_deref(),
        Some("Maya")
    );
    assert_eq!(detect_bg_theme(&a, &[], None, None), None);
    // a generic cave name counts when it reads as a background
    let cave = vec!["Background_Cave_01_SET 1".to_string()];
    assert_eq!(detect_bg_theme(&a, &cave, None, None).as_deref(), Some("Cave"));
}

#[test]
fn normalize_bg_name_collapses_separators() {
    assert_eq!(normalized("__Background--Cave 01  SET__"), "background_cave_01_set");
    assert_eq!(normalized("___"), "");
    assert_eq!(normalized("MayaCave2Dark"), "mayacave2dark");
}

#[test]
fn themed_props_tints_can_use_alpha_blend_material_variants() {
    let r = rules();
    assert!(props_tint_is_alpha_blend(&r, "Mushroom_06"));
    assert!(props_tint_is_alpha_blend(&r, "Twig_1"));
    assert!(props_tint_is_alpha_blend(&r, "Cave_Mushroom_06"));
    assert!(!props_tint_is_alpha_blend(&r, "Shell_01"));
    assert!(!props_tint_is_alpha_blend(&r, "Bottle_01"));
    assert!(props_tint_is_alpha_blend(&r, "Twig_1 (2)"));
}

#[test]
fn skip_render_can_come_from_prefab_visual_presence() {
    let r = rules();
    assert!(should_skip_render(&r, "CameraSystem"));
    assert!(should_skip_render(&r, "LevelStart"));
    assert!(should_skip_render(&r, "LevelManager"));
    assert!(should_skip_render(&r, "LitArea"));
    assert!(should_skip_render(&r, "CloudNightSet"));
    assert!(should_skip_render(&r, "Tutorial"));
    assert!(should_skip_render(&r, "RotationTutorial"));
    assert!(should_skip_render(&r, "AreaAchievement"));
    assert!(should_skip_render(&r, "CollectBoxesAchievement"));
    assert!(!should_skip_render(&r, "GoalArea_01"));
    assert!(!should_skip_render(&r, "GoalArea_01 (2)"));
    assert!(should_skip_render(&r, "CloudNightSet01"));
}

#[test]
fn skip_render_can_come_from_embedded_background_prefabs() {
    let r = rules();
    for name in [
        "BackgroundObject",
        "Background_Cave_01_SET 1",
        "Background_Forest_01_SET 1",
        "Background_Halloween",
        "Background_Jungle_01_SET",
        "Background_MM_01_SET",
        "Background_Night_01_SET 1",
        "Background_Plateau_01_SET",
    ] {
        assert!(
            r.background_names.contains(&normalized(name)),
            "missing background prefab container: {name}"
        );
        assert!(
            should_skip_render(&r, name),
            "expected background prefab container to stay hidden: {name}"
        );
    }
}

#[test]
fn skip_render_can_come_from_challenge_root_scripts() {
    let r = rules();
    for name in ["BoxChallenge", "DynamicBoxChallenge"] {
        assert!(
            prefab_asset_lookup(&r.skip_render_by_root_scripts, name).is_some(),
            "missing challenge root-script skip marker: {name}"
        );
        assert!(
            should_skip_render(&r, name),
            "expected challenge root to stay hidden: {name}"
        );
    }
}

#[test]
fn skip_props_tint_can_come_from_props_alpha_profile() {
    let r = rules();
    assert!(skip_props_tint(&r, "Glow"));
    assert!(skip_props_tint(&r, "Glow_01"));
    assert!(skip_props_tint(&r, "Secret_01"));
    assert!(skip_props_tint(&r, "LitCrystal_01"));
    assert!(!skip_props_tint(&r, "GoalArea_01"));
    assert!(!skip_props_tint(&r, "GoalSprite"));
    assert!(!skip_props_tint(&r, "Star_01"));
    assert!(!skip_props_tint(&r, "Crystal_01"));
    assert!(!skip_props_tint(&r, "Rock_01"));
}

#[test]
fn prefab_lookup_follows_name_normalization() {
    let f = flags(&["Twig_1", "Rock", "Star"]);
    assert_eq!(prefab_asset_lookup(&f, "Twig_1 (2)"), Some(true));
    assert_eq!(prefab_asset_lookup(&f, "Rock42"), Some(true));
    assert_eq!(prefab_asset_lookup(&f, "Star_07"), Some(true));
    assert_eq!(prefab_asset_lookup(&f, "Star_a7"), None);
    assert_eq!(prefab_asset_lookup(&f, "42"), None);
}

#[test]
fn prefab_documents_give_material_and_renderer() {
    assert_eq!(prefab_material_guid(WITH_RENDERER).as_deref(), Some("5a3c1f0e9d8b7a6c5d4e3f2a1b0c9d8e"));
    assert_eq!(prefab_material_guid(NO_RENDERER), None);
    assert!(prefab_has_mesh_renderer(WITH_RENDERER));
    assert!(!prefab_has_mesh_renderer(NO_RENDERER));
    // a guid outside a renderer document does not count
    let text = "--- !u!114 &1\nMonoBehaviour:\n  m_Script: {fileID: 1, guid: 1234abcd, type: 3}\n--- !u!23 &2\nMeshRenderer:\n  m_Materials:\n  - {fileID: 2, guid: cafebabe, type: 2}\n";
    assert_eq!(prefab_material_guid(text).as_deref(), Some("cafebabe"));
}

#[test]
fn root_script_and_component_tables_name_the_marked_prefabs() {
    let scripts = build_prefab_skip_render_by_root_scripts(&root_scripts());
    assert_eq!(
        scripts.entries,
        vec![("BoxChallenge".to_string(), true), ("DynamicBoxChallenge".to_string(), true)]
    );
    let components = build_prefab_skip_props_tint_by_root_components(&root_components());
    assert_eq!(
        components.entries,
        vec![("Secret_01".to_string(), true), ("LitCrystal_01".to_string(), true)]
    );
    assert!(build_prefab_skip_render_by_root_scripts(&Vec::new()).entries.is_empty());
}

#[test]
fn soft_alpha_props_keep_their_material() {
    assert!(props_sprite_has_only_soft_alpha(Some((100, 40, 0, 0))));
    assert!(!props_sprite_has_only_soft_alpha(Some((255, 40, 30, 20))));
    assert!(!props_sprite_has_only_soft_alpha(Some((0, 0, 0, 0))));
    assert!(!props_sprite_has_only_soft_alpha(None));
    let names = build_props_alpha_skip_names(&props_alpha());
    assert_eq!(names.entries, vec![("Glow_01".to_string(), true)]);
}

/// The `_Color` of the fixture's materials, by GUID prefix.
fn colors() -> PrefabTable<[u8; 4]> {
    let material_colors = PrefabTable {
        entries: vec![
            ("be3a1c2d".to_string(), [190u8, 190, 255, 255]),
            ("7f1e2d3c".to_string(), [112u8, 135, 148, 255]),
        ],
    };
    build_prefab_material_colors_by_prefab(&fixture(), &material_colors)
}

#[test]
fn props_tint_colors_can_come_from_prefab_materials() {
    let c = colors();
    assert_eq!(prefab_asset_lookup(&c, "Mushroom_06"), Some([190, 190, 255, 255]));
    assert_eq!(prefab_asset_lookup(&c, "Twig_1"), Some([112, 135, 148, 255]));
    // a material without a color, and a prefab without a renderer, give none
    assert_eq!(prefab_asset_lookup(&c, "GoalArea_01"), None);
    assert_eq!(prefab_asset_lookup(&c, "LevelManager"), None);
}

#[test]
fn prefab_asset_lookups_follow_sprite_name_normalization() {
    let c = colors();
    assert_eq!(prefab_asset_lookup(&c, "Twig_1 (2)"), Some([112, 135, 148, 255]));
    assert_eq!(get_object_color(&c, "Twig_1 (2)", 0, true), ObjectColor::Material([112, 135, 148, 255]));
    let r = rules();
    assert!(should_skip_render(&r, "CloudNightSet01"));
    assert!(!should_skip_render(&r, "GoalArea_01 (2)"));
}

#[test]
fn object_colors_can_come_from_prefab_materials() {
    let c = colors();
    assert_eq!(get_object_color(&c, "Mushroom_06", 0, true), ObjectColor::Material([190, 190, 255, 255]));
    assert_eq!(get_object_color(&c, "Twig_1", 0, true), ObjectColor::Material([112, 135, 148, 255]));
}

#[test]
fn object_colors_keep_generic_hsl_fallback_when_prefab_materials_are_missing() {
    let c = colors();
    assert_eq!(get_object_color(&c, "MissingPrefab", 0, false), ObjectColor::Hue(0));
    assert_eq!(get_object_color(&c, "MissingPrefab", 8, false), ObjectColor::Hue(16));
    assert_eq!(get_object_color(&c, "MissingPrefab", -1, false), ObjectColor::Hue(313));
}

#[test]
fn textured_object_colors_default_to_white_without_material_tint() {
    let c = colors();
    assert_eq!(get_object_color(&c, "Rock_01", 7, true), ObjectColor::White);
    assert_eq!(get_object_color(&c, "StarBox", 7, true), ObjectColor::White);
    assert_eq!(get_object_color(&c, "DynamicStarBox", 7, true), ObjectColor::White);
    assert_eq!(get_object_color(&c, "TNT_Box", 7, true), ObjectColor::White);
}

fn sprite(name: &str, group: &str, layer: BgLayer, sky: Option<&str>) -> BgSpriteTraits {
    BgSpriteTraits {
        name: name.to_string(),
        parent_group: group.to_string(),
        layer,
        sky_texture: sky.map(|s| s.to_string()),
    }
}

#[test]
fn ground_and_sky_sprites_are_recognized_by_layer_and_name() {
    assert!(is_near_fill_ground_sprite(&sprite("Near_Fill_01", "BGLayerNear_02", BgLayer::Near, None)));
    assert!(is_near_fill_ground_sprite(&sprite("near base", "BGLayerNear", BgLayer::Near, None)));
    assert!(!is_near_fill_ground_sprite(&sprite("Near_Fill_01", "BGLayerFar", BgLayer::Near, None)));
    assert!(!is_near_fill_ground_sprite(&sprite("Near_Fill_01", "BGLayerNear", BgLayer::Far, None)));

    assert!(is_beach_ground_sprite(&sprite("Beach", "BeachLayer", BgLayer::Ground, None)));
    assert!(!is_beach_ground_sprite(&sprite("Beach_01", "BeachLayer", BgLayer::Ground, None)));
    assert!(!is_beach_ground_sprite(&sprite("Beach", "BeachLayer", BgLayer::Near, None)));

    assert!(is_grass_fill_ground_sprite(&sprite("Grass_fill", "G", BgLayer::Ground, None)));
    assert!(is_grass_fill_ground_sprite(&sprite("Grass_Fill", "G", BgLayer::Ground, None)));
    assert!(!is_grass_fill_ground_sprite(&sprite("grass_fill", "G", BgLayer::Ground, None)));

    assert!(is_sky_backdrop_sprite(&sprite("Sky", "G", BgLayer::Sky, None)));
    assert!(is_sky_backdrop_sprite(&sprite("Top", "G", BgLayer::Far, Some("Sky_Day.png"))));
    assert!(is_sky_backdrop_sprite(&sprite("Top", "Set/Background_Sky", BgLayer::Far, None)));
    assert!(!is_sky_backdrop_sprite(&sprite("Top", "background_sky", BgLayer::Far, None)));

    assert!(is_ground_color_candidate_sprite(&sprite("Rock", "G", BgLayer::Ground, None)));
    assert!(is_ground_color_candidate_sprite(&sprite("Fill", "G", BgLayer::Far, None)));
    assert!(is_ground_color_candidate_sprite(&sprite("Rock", "GroundSet", BgLayer::Far, None)));
    assert!(!is_ground_color_candidate_sprite(&sprite("Fill_2", "Hills", BgLayer::Far, None)));
}
