use badpiggies_editor::data::bg_prefab::{
    field_value, is_enabled, is_float_text, parse_children, parse_doc_header, parse_prefab,
    parse_vec3,
};

fn chars(s: &str) -> Vec<char> {
    s.chars().collect()
}

const PREFAB: &str = "%YAML 1.1
%TAG !u! tag:unity3d.com,2011:
--- !u!1001 &100100000
Prefab:
  m_RootGameObject: {fileID: 100000}
--- !u!1 &100000
GameObject:
  m_Name: Background_Jungle_01_SET
  m_TagString: Untagged
  m_IsActive: 1
--- !u!1 &100002
GameObject:
  m_Name: Sky
  m_TagString: ParallaxLayerSky
  m_IsActive: 0
--- !u!4 &400000
Transform:
  m_GameObject: {fileID: 100000}
  m_LocalPosition: {x: 0, y: 1.5, z: -2e1}
  m_LocalScale: {x: 1, y: 1, z: 1}
  m_Children:
  - {fileID: 400002}
  m_Father: {fileID: 0}
  m_RootOrder: 0
--- !u!4 &400002
Transform:
  m_GameObject: {fileID: 100002}
  m_LocalPosition: {x: 3, y: oops, z: 0}
  m_Children: []
  m_Father: {fileID: 400000}
  m_RootOrder: 2
--- !u!23 &2300000
MeshRenderer:
  m_GameObject: {fileID: 100002}
  m_Enabled: 1
  m_Materials:
  - {fileID: 2100000, guid: 0de595213c4a2e1f9b8d7c6a5e4f3d2c, type: 2}
--- !u!23 &2300002
MeshRenderer:
  m_GameObject: {fileID: 100000}
  m_Enabled: 0
  m_Materials:
  - {fileID: 2100000, guid: ffffffffffffffff, type: 2}
--- !u!114 &11400000
MonoBehaviour:
  m_GameObject: {fileID: 100002}
  m_Enabled: 1
  m_Script: {fileID: 11500000, guid: b011dfa16a4475b746a1372ea41fdf05, type: 3}
  m_textureWidth: 1024
  m_textureHeight: 1024
  m_spriteWidth: 256
  m_spriteHeight: 128
  m_UVx: 0
  m_UVy: 2
  m_width: 1
  m_height: 0.5
  m_atlasGridSubdivisions: 4
--- !u!114 &11400002
MonoBehaviour:
  m_GameObject: {fileID: 100000}
  m_Script: {fileID: 11500000, guid: 0000000000000000, type: 3}
  m_spriteWidth: 1
";

#[test]
fn background_prefab_structure_is_read() {
    let p = parse_prefab(PREFAB).expect("root transform");
    assert_eq!(p.root_transform_id, "400000");
    let gos: Vec<_> = p.game_objects.iter().map(|g| (g.file_id.clone(), g.name.clone(), g.tag.clone(), g.active)).collect();
    assert_eq!(
        gos,
        vec![
            ("100000".to_string(), "Background_Jungle_01_SET".to_string(), "Untagged".to_string(), true),
            ("100002".to_string(), "Sky".to_string(), "ParallaxLayerSky".to_string(), false),
        ]
    );
    assert_eq!(p.transforms.len(), 2);
    let root = &p.transforms[0];
    assert_eq!(root.game_object_id, "100000");
    assert_eq!(root.local_pos, Some(vec!["0".to_string(), "1.5".to_string(), "-2e1".to_string()]));
    assert_eq!(root.parent_id, None);
    assert_eq!(root.children, vec!["400002".to_string()]);
    let sky = &p.transforms[1];
    assert_eq!(sky.local_pos, None);
    assert_eq!(sky.local_scale, None);
    assert_eq!(sky.parent_id.as_deref(), Some("400000"));
    assert_eq!(sky.root_order, 2);
    assert_eq!(p.renderers.len(), 1);
    assert_eq!(p.renderers[0].game_object_id, "100002");
    assert_eq!(p.renderers[0].material_prefix, "0de59521");
    assert_eq!(p.sprites.len(), 1);
    assert_eq!(p.sprites[0].numbers, vec!["256", "128", "0", "2", "1", "0.5", "4"]);
    assert_eq!(p.sprites[0].border, None);
}

#[test]
fn prefab_without_transforms_has_no_root() {
    assert!(parse_prefab("--- !u!1 &1\nGameObject:\n  m_Name: A\n").is_none());
    // without a prefab root the first transform without a parent is the root
    let p = parse_prefab("--- !u!4 &5\nTransform:\n  m_GameObject: {fileID: 9}\n  m_Father: {fileID: 4}\n--- !u!4 &6\nTransform:\n  m_GameObject: {fileID: 8}\n").expect("root");
    assert_eq!(p.root_transform_id, "6");
}

#[test]
fn numbers_read_as_floats() {
    for ok in ["0", "-1.5", "+2.", ".5", "1e10", "1E-3", "inf", "-Infinity", "NaN", "3.25e+2"] {
        assert!(is_float_text(&chars(ok)), "{ok}");
        assert!(ok.parse::<f32>().is_ok(), "{ok}");
    }
    for bad in ["", ".", "e5", "1e", "1.2.3", "abc", "- 1", "0x10", "1_0"] {
        assert!(!is_float_text(&chars(bad)), "{bad}");
        assert!(bad.parse::<f32>().is_err(), "{bad}");
    }
}

#[test]
fn fields_headers_and_vectors() {
    let doc = chars("Transform:\n  m_Enabled: 0\n  m_Name:  Cloud \n");
    assert_eq!(field_value(&doc, "m_Name: ").map(|v| v.into_iter().collect::<String>()).as_deref(), Some("Cloud"));
    assert!(!is_enabled(&doc));
    assert_eq!(parse_doc_header(&chars(" !u!4 &400000 ")).map(|(c, id)| (c, id.into_iter().collect::<String>())), Some((4, "400000".to_string())));
    assert_eq!(parse_doc_header(&chars("!u!4&1")), None);
    assert_eq!(parse_vec3(&chars("{x: 1, y: 2, z: 3}")), Some(vec!["1".to_string(), "2".to_string(), "3".to_string()]));
    assert_eq!(parse_vec3(&chars("{x: 1, y: 2}")), None);
    assert_eq!(parse_vec3(&chars("{x: 1, w: 9, y: 2, z: 3, x: 4}")), Some(vec!["4".to_string(), "2".to_string(), "3".to_string()]));
    assert_eq!(parse_vec3(&chars("{x 1, y: 2, z: 3}")), None);
    assert_eq!(
        parse_children(&chars("m_Children:\n- {fileID: 1}\n\n- {fileID: 2}\nm_Father: {fileID: 0}\n- {fileID: 3}\n")),
        vec!["1".to_string(), "2".to_string()]
    );
}
