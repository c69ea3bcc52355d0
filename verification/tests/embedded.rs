use badpiggies_editor::assets::{list_asset_paths, read_asset, read_asset_text, EmbeddedAssets};
use badpiggies_editor::data::assets::embedded::{
    build_embedded_index, guid_for_pathname, list_pathnames, pathname_for_guid, read_guid_text,
    read_pathname, read_pathname_text, AssetSource, EmbeddedFile, ProjectAssets,
};
use badpiggies_editor::data::assets::unitypackage_loader::{
    index_from_tar_entries, AssetIndex, AssetRecord, TarEntry,
};
use badpiggies_editor::data::level_db::load_base_level_entries;

fn file(path: &str, data: &[u8]) -> EmbeddedFile {
    EmbeddedFile { path: path.to_string(), data: data.to_vec() }
}

fn bundled() -> EmbeddedAssets {
    EmbeddedAssets {
        files: ProjectAssets {
            files: vec![
                file("Prefab/GoalArea_01.prefab", b"%YAML 1.1\n"),
                file("Prefab/Cake_01.prefab", b"%YAML 1.1\n"),
                file("Prefab/readme.txt", b"not a prefab"),
                file("unity/animation/BirdSleep2.anim", b"%YAML 1.1\n--- !u!74 &7400000\nAnimationClip:\n  m_Name: BirdSleep2\n"),
            ],
        },
    }
}

#[test]
fn embedded_asset_listing_includes_goal_area_prefab() {
    assert!(list_asset_paths(&bundled(), "Prefab/", ".prefab")
        .iter()
        .any(|path| path == "GoalArea_01.prefab"));
}

#[test]
fn embedded_asset_text_reads_animation_clip() {
    let text = read_asset_text(&bundled(), "unity/animation/BirdSleep2.anim").expect("missing anim");
    assert!(text.contains("AnimationClip"));
}

#[test]
fn asset_listing_is_sorted_and_filtered() {
    assert_eq!(
        list_asset_paths(&bundled(), "Prefab/", ".prefab"),
        vec!["Cake_01.prefab".to_string(), "GoalArea_01.prefab".to_string()]
    );
    assert_eq!(read_asset(&bundled(), "Prefab/readme.txt"), Some(b"not a prefab".to_vec()));
    assert_eq!(read_asset(&bundled(), "missing"), None);
}

fn project() -> ProjectAssets {
    ProjectAssets {
        files: vec![
            file("aaaa/pathname", b"Assets/Prefab/GoalArea_01.prefab\n"),
            file("aaaa/asset", b"goal"),
            file("bbbb/pathname", b"Assets/Texture2D/Rock.png"),
            file("bbbb/asset", b"png"),
            // a pathname without its asset is not indexed
            file("cccc/pathname", b"Assets/Prefab/Orphan.prefab"),
            // an empty pathname is not indexed
            file("dddd/pathname", b"   "),
            file("dddd/asset", b"x"),
            // an asset read by GUID needs no pathname
            file("eeee/asset", b"loose"),
        ],
    }
}

#[test]
fn embedded_index_reads_pathname_entries() {
    let index = build_embedded_index(&project());
    let names: Vec<_> = index.records.iter().map(|r| (r.pathname.clone(), r.guid.clone(), r.bytes.clone())).collect();
    assert_eq!(
        names,
        vec![
            ("Assets/Prefab/GoalArea_01.prefab".to_string(), "aaaa".to_string(), b"goal".to_vec()),
            ("Assets/Texture2D/Rock.png".to_string(), "bbbb".to_string(), b"png".to_vec()),
        ]
    );
}

#[test]
fn embedded_source_lookups() {
    let src = AssetSource::embedded(project());
    assert_eq!(guid_for_pathname(&src, "Assets/Prefab/GoalArea_01.prefab"), Some("aaaa"));
    assert_eq!(guid_for_pathname(&src, "Assets/Prefab/Orphan.prefab"), None);
    assert_eq!(pathname_for_guid(&src, "bbbb"), Some("Assets/Texture2D/Rock.png"));
    assert_eq!(read_pathname(&src, "Assets/Texture2D/Rock.png"), Some(b"png".to_vec()));
    assert_eq!(read_pathname_text(&src, "Assets/Prefab/GoalArea_01.prefab"), Some("goal".to_string()));
    assert_eq!(read_guid_text(&src, "eeee"), Some("loose".to_string()));
    assert_eq!(read_guid_text(&src, "ffff"), None);
    assert_eq!(
        list_pathnames(&src, "Assets/", ""),
        vec!["Assets/Prefab/GoalArea_01.prefab".to_string(), "Assets/Texture2D/Rock.png".to_string()]
    );
}

#[test]
fn external_source_reports_empty_guids_as_unknown() {
    let index = AssetIndex {
        records: vec![
            AssetRecord { pathname: "Assets/a.txt".to_string(), guid: String::new(), bytes: b"A".to_vec() },
            AssetRecord { pathname: "Assets/b.txt".to_string(), guid: "g2".to_string(), bytes: b"B".to_vec() },
        ],
    };
    let src = AssetSource::External(index);
    assert_eq!(guid_for_pathname(&src, "Assets/a.txt"), None);
    assert_eq!(guid_for_pathname(&src, "Assets/b.txt"), Some("g2"));
    assert_eq!(read_pathname(&src, "Assets/a.txt"), Some(b"A".to_vec()));
    assert_eq!(read_guid_text(&src, "g2"), Some("B".to_string()));
}

#[test]
fn a_pathname_and_its_guid_read_the_same_asset() {
    let src = AssetSource::embedded(project());
    for p in ["Assets/Prefab/GoalArea_01.prefab", "Assets/Texture2D/Rock.png"] {
        let g = guid_for_pathname(&src, p).unwrap();
        assert_eq!(pathname_for_guid(&src, g), Some(p));
        assert_eq!(read_guid_text(&src, g), read_pathname_text(&src, p));
    }
    let ext = AssetSource::External(AssetIndex {
        records: vec![
            AssetRecord { pathname: "Assets/a.txt".to_string(), guid: "g1".to_string(), bytes: b"A".to_vec() },
            AssetRecord { pathname: "Assets/b.txt".to_string(), guid: "g2".to_string(), bytes: b"B".to_vec() },
        ],
    });
    let g = guid_for_pathname(&ext, "Assets/b.txt").unwrap();
    assert_eq!(pathname_for_guid(&ext, g), Some("Assets/b.txt"));
    assert_eq!(read_guid_text(&ext, g), read_pathname_text(&ext, "Assets/b.txt"));
}

#[test]
fn tar_entries_fill_one_slot_per_folder() {
    let e = |a: &str, b: &str, data: &[u8], is_file: bool| TarEntry {
        components: vec![a.to_string(), b.to_string()],
        is_file,
        data: data.to_vec(),
    };
    let entries = vec![
        e("g1", "pathname", b"Assets/a.txt\n", true),
        e("g2", "asset", b"B", true),
        e("g1", "asset", b"A", true),
        e("g2", "pathname", b"Assets/b.txt", true),
        e("g2", "asset.meta", b"fileFormatVersion: 2\nguid: feed\n", true),
        // a directory entry and an asset without a pathname add nothing
        e("g3", "asset", b"C", false),
        e("g4", "asset", b"D", true),
    ];
    let idx = index_from_tar_entries(&entries);
    let got: Vec<_> = idx.records.iter().map(|r| (r.pathname.clone(), r.guid.clone(), r.bytes.clone())).collect();
    assert_eq!(
        got,
        vec![
            ("Assets/a.txt".to_string(), "g1".to_string(), b"A".to_vec()),
            ("Assets/b.txt".to_string(), "feed".to_string(), b"B".to_vec()),
        ]
    );
}

#[test]
fn base_levels_come_from_the_episode_levels_prefabs() {
    let prefab = "%YAML 1.1\n--- !u!114 &11400000\nMonoBehaviour:\n  m_Name: Levels\n  m_label: 2\n  m_levelInfos:\n  - sceneName: Level_21\n";
    let sandbox = "%YAML 1.1\n--- !u!114 &11400000\nMonoBehaviour:\n  m_label: 9\n  m_levelInfos:\n  - sceneName: Other\n";
    let src = AssetSource::External(AssetIndex {
        records: vec![
            AssetRecord { pathname: "Assets/Prefab/Episode2Levels.prefab".to_string(), guid: "a".to_string(), bytes: prefab.as_bytes().to_vec() },
            AssetRecord { pathname: "Assets/Prefab/SandboxLevels.prefab".to_string(), guid: "b".to_string(), bytes: sandbox.as_bytes().to_vec() },
        ],
    });
    let entries = load_base_level_entries(&src);
    let got: Vec<_> = entries.iter().map(|e| (e.label.clone(), e.scene.clone())).collect();
    assert_eq!(got, vec![("2-1".to_string(), "Level_21".to_string())]);
}
