use badpiggies_editor::data::level_db::{
    build_lookup, contraption_hash, contraption_level_name, document_level_entries,
    levels_prefab_bodies, parse_doc_header, parse_level_entries, scene_name_from_loader_path,
    parse_levels_prefab, select_level_entries, LevelCategory, LevelEntry, YamlValue,
};

fn s(text: &str) -> YamlValue {
    YamlValue::Str(text.to_string())
}

fn map(entries: Vec<(&str, YamlValue)>) -> YamlValue {
    YamlValue::Mapping(entries.into_iter().map(|(k, v)| (s(k), v)).collect())
}

fn entry(label: &str, scene: &str, category: LevelCategory) -> LevelEntry {
    LevelEntry { label: label.to_string(), scene: scene.to_string(), category }
}

fn view(entries: &[LevelEntry]) -> Vec<(String, String, LevelCategory)> {
    entries.iter().map(|e| (e.label.clone(), e.scene.clone(), e.category)).collect()
}

#[test]
fn scene_name_derives_from_loader_path() {
    assert_eq!(
        scene_name_from_loader_path(
            "Assets/Resources/Levels/Episode_6_Sandbox/Episode_6_Tower Sandbox_loader.prefab"
        ),
        Some("Episode_6_Tower Sandbox".to_string())
    );
    assert_eq!(scene_name_from_loader_path("Level_Race_01_loader.prefab"), Some("Level_Race_01".to_string()));
    assert_eq!(scene_name_from_loader_path("Assets/Level_01.prefab"), None);
}

#[test]
fn contraption_hash_is_uppercase_hex_of_sha1_prefix() {
    assert_eq!(contraption_hash("Level_21"), "C2B52558F1B0F71F8D19");
    assert_eq!(contraption_hash("scenario_69"), "5D7750FC787EBFEECCA4");
}

fn base_entries() -> Vec<LevelEntry> {
    vec![
        entry("1-1", "Level_21", LevelCategory::Episode),
        entry("2-1", "scenario_69", LevelCategory::Episode),
        entry("S-S", "Level_Sandbox_01", LevelCategory::Sandbox),
        entry("R-4", "Level_Race_01", LevelCategory::Race),
    ]
}

fn lookup_for_level_key(level_key: &str) -> Option<(String, String)> {
    let lookup = build_lookup(&base_entries());
    contraption_level_name(&lookup, &contraption_hash(level_key))
}

#[test]
fn lookup_resolves_known_episode_sandbox_and_race_levels() {
    assert_eq!(lookup_for_level_key("Level_21"), Some(("1-1".to_string(), "Level_21".to_string())));
    assert_eq!(lookup_for_level_key("scenario_69"), Some(("2-1".to_string(), "scenario_69".to_string())));
    assert_eq!(
        lookup_for_level_key("Level_Sandbox_01"),
        Some(("S-S".to_string(), "Level_Sandbox_01".to_string()))
    );
    assert_eq!(lookup_for_level_key("Level_Race_01"), Some(("R-4".to_string(), "Level_Race_01".to_string())));
}

#[test]
fn lookup_generates_sandbox_and_race_variants() {
    assert_eq!(
        lookup_for_level_key("Level_Sandbox_01_3"),
        Some(("".to_string(), "Level_Sandbox_01_3".to_string()))
    );
    assert_eq!(
        lookup_for_level_key("cr_Level_Race_01_0"),
        Some(("".to_string(), "cr_Level_Race_01_0".to_string()))
    );
    assert_eq!(lookup_for_level_key("Level_Sandbox_01_41"), None);
    assert_eq!(lookup_for_level_key("cr_Level_Race_01_21"), None);
    assert_eq!(lookup_for_level_key("Level_21_1"), None);
}

#[test]
fn lookup_ignores_the_case_of_the_file_stem() {
    let lookup = build_lookup(&base_entries());
    assert_eq!(
        contraption_level_name(&lookup, "c2b52558f1b0f71f8d19"),
        Some(("1-1".to_string(), "Level_21".to_string()))
    );
    // 40 sandbox slots and 21 race tracks on top of the base levels
    assert_eq!(lookup.op_count(), 4 + 40 + 21);
}

#[test]
fn episode_levels_are_labelled_by_prefix_and_position() {
    let fields = vec![
        (s("m_label"), YamlValue::PosInt(3)),
        (
            s("m_levelInfos"),
            YamlValue::List(vec![
                map(vec![("sceneName", s("Level_41"))]),
                map(vec![("other", s("x"))]),
                map(vec![("sceneName", s("Level_43"))]),
            ]),
        ),
    ];
    assert_eq!(
        view(&parse_level_entries(&fields)),
        vec![
            ("3-1".to_string(), "Level_41".to_string(), LevelCategory::Episode),
            ("3-3".to_string(), "Level_43".to_string(), LevelCategory::Episode),
        ]
    );
}

#[test]
fn sandbox_and_race_lists_use_loader_paths() {
    let level = |id: &str, path: &str| map(vec![("m_identifier", s(id)), ("m_levelLoaderPath", s(path))]);
    let fields = vec![
        (s("m_label"), s("S")),
        (
            s("m_levels"),
            YamlValue::List(vec![
                level("S-1", "Assets/Levels/Level_Sandbox_01_loader.prefab"),
                level("S-2", "Assets/Levels/NotALoader.prefab"),
            ]),
        ),
    ];
    assert_eq!(
        view(&parse_level_entries(&fields)),
        vec![("S-1".to_string(), "Level_Sandbox_01".to_string(), LevelCategory::Sandbox)]
    );
    let other = vec![(s("m_label"), s("X")), (s("m_levels"), YamlValue::List(vec![]))];
    assert!(parse_level_entries(&other).is_empty());
    let negative_label = vec![
        (s("m_label"), YamlValue::NegInt(-2)),
        (s("m_levelInfos"), YamlValue::List(vec![map(vec![("sceneName", s("L"))])])),
    ];
    assert_eq!(view(&parse_level_entries(&negative_label))[0].0, "-2-1");
}

#[test]
fn documents_need_a_monobehaviour_root() {
    let doc = map(vec![(
        "MonoBehaviour",
        map(vec![
            ("m_label", s("1")),
            ("m_levelInfos", YamlValue::List(vec![map(vec![("sceneName", s("Level_21"))])])),
        ]),
    )]);
    assert_eq!(view(&document_level_entries(&doc)), vec![("1-1".to_string(), "Level_21".to_string(), LevelCategory::Episode)]);
    let other = map(vec![("GameObject", map(vec![]))]);
    assert!(document_level_entries(&other).is_empty());
    let chosen = select_level_entries(&vec![None, Some(other), Some(doc)]);
    assert_eq!(chosen.len(), 1);
}

#[test]
fn prefab_documents_split_into_monobehaviour_bodies() {
    let text = "%YAML 1.1\n--- !u!1 &100\nGameObject:\n  m_Name: X\n--- !u!114 &200\nMonoBehaviour:\n  m_label: 1\n--- !u!114 stripped\nMonoBehaviour:\n";
    assert_eq!(levels_prefab_bodies(text), vec!["MonoBehaviour:\n  m_label: 1".to_string()]);
    let header: Vec<char> = "  !u!114   &11400000 extra".chars().collect();
    assert_eq!(parse_doc_header(&header), Some((114, "11400000".to_string())));
    let bad: Vec<char> = "!u!x &1".chars().collect();
    assert_eq!(parse_doc_header(&bad), None);
}

#[test]
fn a_stem_resolves_to_the_level_it_hashes_in_either_case() {
    let lookup = build_lookup(&base_entries());
    for key in ["Level_21", "Level_Sandbox_01_7", "cr_Level_Race_01_20"] {
        let stem = contraption_hash(key);
        let (_, scene) = contraption_level_name(&lookup, &stem).unwrap();
        assert_eq!(contraption_hash(&scene), stem.to_ascii_uppercase());
        assert_eq!(
            contraption_level_name(&lookup, &stem.to_ascii_lowercase()),
            contraption_level_name(&lookup, &stem)
        );
    }
}

fn levels_prefab_text(label: &str, scenes: &[&str]) -> String {
    let mut t = String::from("%YAML 1.1\n--- !u!1 &100\nGameObject:\n  m_Name: Episode\n--- !u!114 &11400000\nMonoBehaviour:\n  m_Name: EpisodeLevels\n");
    t.push_str(&format!("  m_label: {label}\n  m_levelInfos:\n"));
    for s in scenes {
        t.push_str(&format!("  - sceneName: {s}\n"));
    }
    t
}

#[test]
fn a_levels_prefab_is_read_through_its_yaml_documents() {
    let text = levels_prefab_text("1", &["Level_01", "Level_02"]);
    let parsed = parse_levels_prefab(&text);
    assert_eq!(
        view(&parsed),
        vec![
            ("1-1".to_string(), "Level_01".to_string(), LevelCategory::Episode),
            ("1-2".to_string(), "Level_02".to_string(), LevelCategory::Episode),
        ]
    );
    // a document that is not YAML gives nothing
    assert!(parse_levels_prefab("--- !u!114 &1\nMonoBehaviour: [\n").is_empty());
}
