use badpiggies_editor::data::assets::theme::PrefabTable;
use badpiggies_editor::data::icon_db::{
    atlas_for_material_guid, get_part_info, parse_part_ids, part_key, part_variant,
};

const PART: &str = "%YAML 1.1\n--- !u!1 &100\nGameObject:\n  m_Name: Part_Balloon\n--- !u!114 &200\nMonoBehaviour:\n  m_GameObject: {fileID: 100}\n  m_partType: 1\n  m_ZOffset: -0.5\n";

#[test]
fn part_materials_map_to_ingame_atlases() {
    assert_eq!(atlas_for_material_guid("ce5a99310000aaaa"), Some("IngameAtlas.png"));
    assert_eq!(atlas_for_material_guid("4eeb62bc"), Some("IngameAtlas2.png"));
    assert_eq!(atlas_for_material_guid("7975d66dffff"), Some("IngameAtlas3.png"));
    assert_eq!(atlas_for_material_guid("deadbeef"), None);
    assert_eq!(atlas_for_material_guid("ce5a"), None);
}

#[test]
fn part_ids_come_from_behaviour_documents() {
    assert_eq!(parse_part_ids(PART), (Some(1), None));
    let with_index = format!("{PART}--- !u!114 &300\nMonoBehaviour:\n  customPartIndex: 3\n");
    assert_eq!(parse_part_ids(&with_index), (Some(1), Some(3)));
    // a later unreadable value replaces an earlier one
    let later = format!("{with_index}--- !u!114 &400\nMonoBehaviour:\n  m_partType: many\n");
    assert_eq!(parse_part_ids(&later), (None, Some(3)));
    // other documents do not count
    let other = "--- !u!4 &1\nTransform:\n  m_partType: 5\n";
    assert_eq!(parse_part_ids(other), (None, None));
}

#[test]
fn part_set_prefabs_name_their_variant() {
    assert_eq!(part_variant("Part_Balloon_08_SET.prefab", PART), Some((1, 7)));
    let with_index = format!("{PART}--- !u!114 &300\nMonoBehaviour:\n  customPartIndex: 3\n");
    assert_eq!(part_variant("Part_Balloon_08_SET.prefab", &with_index), Some((1, 3)));
    assert_eq!(part_variant("Balloon_08_SET.prefab", PART), None);
    assert_eq!(part_variant("Part_Balloon_SET.prefab", PART), None);
    assert_eq!(part_variant("Part_Balloon_01_SET.prefab", "--- !u!1 &1\nGameObject:\n"), None);
}

#[test]
fn part_icons_fall_back_to_the_default_variant() {
    assert_eq!(part_key(1, 7), "1.7");
    assert_eq!(part_key(-2, 0), "-2.0");
    let db = PrefabTable {
        entries: vec![
            ("1.0".to_string(), "balloon".to_string()),
            ("1.7".to_string(), "balloon face".to_string()),
            ("1.7".to_string(), "balloon face 2".to_string()),
        ],
    };
    assert_eq!(get_part_info(&db, 1, 7).map(String::as_str), Some("balloon face 2"));
    assert_eq!(get_part_info(&db, 1, 5).map(String::as_str), Some("balloon"));
    assert_eq!(get_part_info(&db, 2, 0), None);
}
