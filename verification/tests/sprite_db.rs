use badpiggies_editor::data::assets::embedded::{AssetSource, EmbeddedFile, ProjectAssets};
use badpiggies_editor::data::assets::theme::PrefabTable;
use badpiggies_editor::data::sprite_prefab::{
    build_runtime_atlas_observations, parse_runtime_sprite, parse_sprite_prefab,
};
use badpiggies_editor::data::sprite_db::{
    get_sprite_info, preferred_runtime_sprite_id, runtime_atlas_for,
    default_custom_part_index, parse_game_object_name, is_representative_runtime_sprite_name, is_runtime_atlas_filename, parse_file_id,
    parse_game_object, parse_guid, parse_renderer, parse_transform,
    runtime_unique_atlas_for_material_id, RuntimeAtlasObservations,
};

const G_INGAME: &str = "a0000000000000000000000000000001";
const G_INGAME2: &str = "a0000000000000000000000000000002";
const G_INGAME3: &str = "a0000000000000000000000000000003";
const G_MENU: &str = "a0000000000000000000000000000004";
const G_MENU2: &str = "a0000000000000000000000000000005";
const G_SHEET4: &str = "a0000000000000000000000000000006";
const G_PARTICLES: &str = "a0000000000000000000000000000007";

/// A prefab with one game object, renderer and runtime sprite behaviour
/// per `(sprite id, material guid, active, enabled)`.
fn sprite_prefab(sprites: &[(&str, &str, bool, bool)]) -> String {
    let mut text = String::from("%YAML 1.1\n%TAG !u! tag:unity3d.com,2011:\n");
    for (i, (sprite_id, guid, active, enabled)) in sprites.iter().enumerate() {
        let go = 100 + i;
        text += &format!(
            "--- !u!1 &{go}\nGameObject:\n  m_Name: Sprite{i}\n  m_IsActive: {}\n",
            if *active { 1 } else { 0 }
        );
        text += &format!(
            "--- !u!23 &{}\nMeshRenderer:\n  m_GameObject: {{fileID: {go}}}\n  m_Enabled: {}\n  m_Materials:\n  - {{fileID: 2100000, guid: {guid}, type: 2}}\n",
            2300 + i,
            if *enabled { 1 } else { 0 }
        );
        text += &format!(
            "--- !u!114 &{}\nMonoBehaviour:\n  m_GameObject: {{fileID: {go}}}\n  m_id: {sprite_id}\n  m_scaleX: 1\n  m_scaleY: 0.5\n",
            11400 + i
        );
    }
    text
}

fn project(assets: &[(&str, String)]) -> AssetSource {
    let mut files = Vec::new();
    for (i, (pathname, text)) in assets.iter().enumerate() {
        let guid = format!("{:032x}", i + 1);
        files.push(EmbeddedFile { path: format!("{guid}/pathname"), data: pathname.as_bytes().to_vec() });
        files.push(EmbeddedFile { path: format!("{guid}/asset"), data: text.as_bytes().to_vec() });
    }
    AssetSource::embedded(ProjectAssets { files })
}

fn table(entries: &[(&str, &str)]) -> PrefabTable<String> {
    PrefabTable { entries: entries.iter().map(|(k, v)| (k.to_string(), v.to_string())).collect() }
}

/// Sprite atlas observations gathered from a small prefab set: the same
/// material id shows up on several prefabs, some of its sprites inactive
/// or with a disabled renderer.
fn observations() -> RuntimeAtlasObservations {
    let source = project(&[
        ("Assets/Prefab/A.prefab", sprite_prefab(&[("s-a", G_INGAME2, true, true), ("s-c", G_MENU2, true, true)])),
        ("Assets/Prefab/B.prefab", sprite_prefab(&[("s-a", G_INGAME2, true, true), ("s-a", G_MENU, false, true)])),
        ("Assets/Prefab/C.prefab", sprite_prefab(&[("s-a", G_MENU, true, false), ("s-c2", G_PARTICLES, true, true)])),
        ("Assets/Resources/ui/D.prefab", sprite_prefab(&[("s-b", G_MENU2, true, true), ("s-d", G_INGAME, true, true)])),
        ("Assets/Resources/ui/E.prefab", sprite_prefab(&[("s-d2", G_MENU, true, true), ("s-e", G_INGAME3, true, true)])),
        ("Assets/Resources/ui/F.prefab", sprite_prefab(&[("s-e2", G_SHEET4, true, true), ("unknown", G_MENU, true, true)])),
        ("Assets/Other/G.prefab", sprite_prefab(&[("s-a", G_MENU, true, true)])),
    ]);
    let metas = table(&[
        ("s-a", "20936c462fac24dbb967c450f9cb0cb4"),
        ("s-b", "1dc9819db44b840edb8cdec9ef7b80c2"),
        ("s-c", "32e759dd981a043fa8fbcfd4997143ea"),
        ("s-c2", "32e759dd981a043fa8fbcfd4997143ea"),
        ("s-d", "a286b652d38de4df384036482abc0571"),
        ("s-d2", "a286b652d38de4df384036482abc0571"),
        ("s-e", "f300c561f75e74380a11f80d4d2647f3"),
        ("s-e2", "f300c561f75e74380a11f80d4d2647f3"),
    ]);
    let textures = table(&[
        (G_INGAME, "IngameAtlas.png"),
        (G_INGAME2, "IngameAtlas2.png"),
        (G_INGAME3, "IngameAtlas3.png"),
        (G_MENU, "MenuAtlas.png"),
        (G_MENU2, "MenuAtlas2.png"),
        (G_SHEET4, "Ingame_Sheet_04.png"),
        (G_PARTICLES, "Particles_Sheet_01.png"),
    ]);
    build_runtime_atlas_observations(&source, &metas, &textures)
}

#[test]
fn dynamic_runtime_atlas_map_recovers_unique_material_ids() {
    let obs = observations();
    assert_eq!(
        runtime_unique_atlas_for_material_id(&obs, "20936c462fac24dbb967c450f9cb0cb4").as_deref(),
        Some("IngameAtlas2.png")
    );
    assert_eq!(
        runtime_unique_atlas_for_material_id(&obs, "1dc9819db44b840edb8cdec9ef7b80c2").as_deref(),
        Some("MenuAtlas2.png")
    );
    assert_eq!(
        runtime_unique_atlas_for_material_id(&obs, "32e759dd981a043fa8fbcfd4997143ea").as_deref(),
        Some("MenuAtlas2.png")
    );
}

#[test]
fn conflicting_runtime_material_ids_stay_out_of_dynamic_map() {
    let obs = observations();
    assert_eq!(runtime_unique_atlas_for_material_id(&obs, "a286b652d38de4df384036482abc0571"), None);
    assert_eq!(runtime_unique_atlas_for_material_id(&obs, "f300c561f75e74380a11f80d4d2647f3"), None);
    assert_eq!(runtime_unique_atlas_for_material_id(&obs, "unknown"), None);
}

#[test]
fn runtime_atlas_names_and_representative_children() {
    assert!(is_runtime_atlas_filename("MenuAtlas2.png"));
    assert!(!is_runtime_atlas_filename("Props_Generic_Sheet_01.png"));
    assert!(is_representative_runtime_sprite_name("Close Button"));
    assert!(is_representative_runtime_sprite_name("Soft_Currency_Icon"));
    assert!(!is_representative_runtime_sprite_name("Background Ribbon"));
}

fn chars(s: &str) -> Vec<char> {
    s.chars().collect()
}

fn text(v: Option<Vec<char>>) -> Option<String> {
    v.map(|c| c.into_iter().collect())
}

#[test]
fn file_ids_and_guids_are_read_after_their_keys() {
    assert_eq!(text(parse_file_id(&chars(" {fileID: 4235, guid: x}"))).as_deref(), Some("4235"));
    assert_eq!(text(parse_file_id(&chars("{fileID: -1}"))), None);
    assert_eq!(text(parse_guid(&chars("- {fileID: 2100000, guid:   ce5a99zz, type: 2}"))).as_deref(), Some("ce5a99"));
    assert_eq!(text(parse_guid(&chars("no key"))), None);
}

#[test]
fn game_objects_transforms_and_renderers_are_scanned() {
    assert!(parse_game_object("GameObject:\n  m_Name: A\n"));
    assert!(!parse_game_object("GameObject:\n  m_IsActive: 0\n"));
    assert!(parse_game_object("GameObject:\n  m_IsActive: 0\n  m_IsActive: 1\n"));

    let t = parse_transform(
        "Transform:\n  m_GameObject: {fileID: 100}\n  m_Children:\n  - {fileID: 401}\n  - {fileID: 402}\n  m_Father: {fileID: 0}\n",
    )
    .expect("transform");
    assert_eq!(t.game_object_id, "100");
    assert_eq!(t.father, "0");
    assert_eq!(t.children, vec!["401".to_string(), "402".to_string()]);
    let empty = parse_transform("Transform:\n  m_GameObject: {fileID: 7}\n  m_Children: []\n  - {fileID: 9}\n").expect("transform");
    assert!(empty.children.is_empty());
    assert!(parse_transform("Transform:\n  m_Children: []\n").is_none());

    let r = parse_renderer(
        "MeshRenderer:\n  m_GameObject: {fileID: 100}\n  m_Enabled: 0\n  m_Materials:\n  - {fileID: 2100000, guid: abc123, type: 2}\n",
    )
    .expect("renderer");
    assert_eq!(r.game_object_id, "100");
    assert_eq!(r.material_guid, "abc123");
    assert!(!r.enabled);
    let no_material = parse_renderer("MeshRenderer:\n  m_GameObject: {fileID: 5}\n  m_Materials:\n  m_Other: 1\n  - {guid: ffff}\n").expect("renderer");
    assert_eq!(no_material.material_guid, "");
    assert!(no_material.enabled);
}

#[test]
fn game_object_names_and_part_variants() {
    assert_eq!(parse_game_object_name("GameObject:\n  m_Name: Wheel\n  m_Name: Other\n").as_deref(), Some("Wheel"));
    assert_eq!(parse_game_object_name("GameObject:\n"), None);
    assert_eq!(default_custom_part_index("Part_Wheel_3_SET.prefab"), Some(2));
    assert_eq!(default_custom_part_index("Part_Wheel_SET.prefab"), None);
    assert_eq!(default_custom_part_index("Part_Wheel_3.prefab"), None);
    assert_eq!(default_custom_part_index("Wheel_0_SET.prefab"), Some(-1));
}

#[test]
fn runtime_sprites_need_a_game_object_an_id_and_both_scales() {
    let doc = "MonoBehaviour:\n  m_GameObject: {fileID: 100}\n  m_id: abc-1\n  m_scaleX: 2\n  m_scaleY: -0.5\n";
    let c = parse_runtime_sprite(doc).unwrap();
    assert_eq!(
        (c.game_object_id.as_str(), c.sprite_id.as_str(), c.scale_x.as_str(), c.scale_y.as_str()),
        ("100", "abc-1", "2", "-0.5")
    );
    assert!(parse_runtime_sprite("MonoBehaviour:\n  m_GameObject: {fileID: 100}\n  m_id: x\n  m_scaleX: 1\n").is_none());
    // a scale that does not read as a number counts as missing
    assert!(parse_runtime_sprite("MonoBehaviour:\n  m_GameObject: {fileID: 1}\n  m_id: x\n  m_scaleX: 1\n  m_scaleY: wide\n").is_none());
}

#[test]
fn sprite_prefabs_read_their_documents_in_order() {
    let p = parse_sprite_prefab(&sprite_prefab(&[("s-a", G_MENU, true, true), ("s-b", G_INGAME, false, false)]));
    assert_eq!(
        p.game_objects.entries,
        vec![("100".to_string(), true), ("101".to_string(), false)]
    );
    assert_eq!(p.renderers.len(), 2);
    assert_eq!(p.renderers[1].game_object_id, "101");
    assert_eq!(p.renderers[1].material_guid, G_INGAME);
    assert!(!p.renderers[1].enabled);
    let ids: Vec<&str> = p.runtime_sprites.iter().map(|c| c.sprite_id.as_str()).collect();
    assert_eq!(ids, vec!["s-a", "s-b"]);
    assert!(p.transforms.is_empty());
}

#[test]
fn observations_skip_inactive_disabled_and_other_directories() {
    let obs = observations();
    let pairs: Vec<(&str, &str)> = obs.pairs.iter().map(|(a, b)| (a.as_str(), b.as_str())).collect();
    assert_eq!(
        pairs,
        vec![
            ("20936c462fac24dbb967c450f9cb0cb4", "IngameAtlas2.png"),
            ("32e759dd981a043fa8fbcfd4997143ea", "MenuAtlas2.png"),
            ("20936c462fac24dbb967c450f9cb0cb4", "IngameAtlas2.png"),
            ("1dc9819db44b840edb8cdec9ef7b80c2", "MenuAtlas2.png"),
            ("a286b652d38de4df384036482abc0571", "IngameAtlas.png"),
            ("a286b652d38de4df384036482abc0571", "MenuAtlas.png"),
            ("f300c561f75e74380a11f80d4d2647f3", "IngameAtlas3.png"),
            ("f300c561f75e74380a11f80d4d2647f3", "Ingame_Sheet_04.png"),
        ]
    );
}

/// Sprite info as the database holds it: atlas, UV rect and world size.
type Info = (String, [f32; 4], f32, f32);

fn sprite_db() -> PrefabTable<Info> {
    let info = |atlas: &str, x: f32| (atlas.to_string(), [x, 0.5, 0.125, 0.125], 0.5, 0.5);
    PrefabTable {
        entries: vec![
            ("Bird_Black_01".to_string(), info("Ingame_Characters_Sheet_01.png", 0.25)),
            ("StarBox".to_string(), info("IngameAtlas.png", 0.5)),
            ("Bottle".to_string(), info("Props_Generic_Sheet_01.png", 0.75)),
            ("Rock".to_string(), info("Props_Generic_Sheet_01.png", 0.0)),
        ],
    }
}

#[test]
fn bird_black_alias_falls_back_to_bird_black_01() {
    let db = sprite_db();
    let alias = get_sprite_info(&db, "Bird_Black").expect("missing Bird_Black alias");
    let direct = get_sprite_info(&db, "Bird_Black_01").expect("missing Bird_Black_01 sprite info");
    assert_eq!(alias.0, direct.0);
    assert_eq!(alias.1, direct.1);
    assert_eq!((alias.2, alias.3), (direct.2, direct.3));
}

#[test]
fn sprite_lookups_follow_name_normalization() {
    let db = sprite_db();
    assert_eq!(get_sprite_info(&db, "Bottle (2)").map(|i| i.1[0]), Some(0.75));
    assert_eq!(get_sprite_info(&db, "StarBox01").map(|i| i.1[0]), Some(0.5));
    assert_eq!(get_sprite_info(&db, "Rock_001").map(|i| i.1[0]), Some(0.0));
    assert!(get_sprite_info(&db, "Rock_a1").is_none());
    assert!(get_sprite_info(&db, "Missing").is_none());
}

#[test]
fn fixed_runtime_tables_pick_sprites_and_atlases() {
    assert_eq!(preferred_runtime_sprite_id("RewardPopup"), Some("690f29d0-ee21-4724-b083-71eb5e27e6ac"));
    assert_eq!(preferred_runtime_sprite_id("SnoutButton"), Some("dfb4e969-93e2-4d7d-969b-29732cc266c7"));
    assert_eq!(preferred_runtime_sprite_id("Unknown"), None);
    assert_eq!(runtime_atlas_for("Any", "f300c561f75e74380a11f80d4d2647f3"), Some("Ingame_Sheet_04.png"));
    assert_eq!(
        runtime_atlas_for("LevelRowUnlockPanel", "1dc9819db44b840edb8cdec9ef7b80c2"),
        Some("Ingame_Sheet_04.png")
    );
    assert_eq!(
        runtime_atlas_for("Other", "1dc9819db44b840edb8cdec9ef7b80c2"),
        Some("Ingame_Characters_Sheet_01.png")
    );
    assert_eq!(runtime_atlas_for("GridCell", "20936c462fac24dbb967c450f9cb0cb4"), Some("IngameAtlas2.png"));
    assert_eq!(runtime_atlas_for("SnoutCoinShop", "32e759dd981a043fa8fbcfd4997143ea"), Some("Ingame_Sheet_04.png"));
    assert_eq!(runtime_atlas_for("Any", "ffff"), None);
}
