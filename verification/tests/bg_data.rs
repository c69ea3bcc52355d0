use badpiggies_editor::data::assets::embedded::{AssetSource, EmbeddedFile, ProjectAssets};
use badpiggies_editor::data::bg_data::{
    asset_filename, atlas_for_material_guid, bg_atlas_files, classify_group_layer,
    explicit_parallax_layer, is_sky_texture_asset, load_textureloader_materials, sky_texture_files,
    BgLayer,
};

fn project(pathnames: &[&str]) -> AssetSource {
    let mut files = Vec::new();
    for (i, pathname) in pathnames.iter().enumerate() {
        let guid = format!("{:032x}", i + 1);
        files.push(EmbeddedFile { path: format!("{guid}/pathname"), data: pathname.as_bytes().to_vec() });
        files.push(EmbeddedFile { path: format!("{guid}/asset"), data: b"\x89PNG".to_vec() });
    }
    AssetSource::embedded(ProjectAssets { files })
}

/// A texture loader prefab as the game lays it out: each material
/// followed by the name of the texture asset it loads.
const TEXTURE_LOADER: &str = "%YAML 1.1
--- !u!114 &11400000
MonoBehaviour:
  m_textures:
  - material: {fileID: 2100000, guid: 0de595213c4a2e1f9b8d7c6a5e4f3d2c, type: 2}
    assetName: Background_Maya_Sheet_02
  - material: {fileID: 2100000, guid: d2458d0c77aa55bb99cc11dd33ee44ff, type: 2}
    assetName: Background_Maya_Sheet_05
  - material: {fileID: 2100000, guid: 1234567890abcdef1234567890abcdef, type: 2}
    otherField: 1
  - material: {fileID: 2100000, guid: feedfacefeedfacefeedfacefeedface, type: 2}
    assetName:  Night_Sky_Texture  
";

#[test]
fn atlas_for_material_guid_resolves_generated_maya_prefixes() {
    let table = load_textureloader_materials(TEXTURE_LOADER);
    assert_eq!(
        atlas_for_material_guid(&table, "0de59521").as_deref(),
        Some("Background_Maya_Sheet_02.png")
    );
    assert_eq!(
        atlas_for_material_guid(&table, "d2458d0c").as_deref(),
        Some("Background_Maya_Sheet_05.png")
    );
}

#[test]
fn texture_loader_pairs_material_with_following_asset_name() {
    let table = load_textureloader_materials(TEXTURE_LOADER);
    let pairs: Vec<(String, String)> = table.entries.clone();
    assert_eq!(
        pairs,
        vec![
            ("0de59521".to_string(), "Background_Maya_Sheet_02".to_string()),
            ("d2458d0c".to_string(), "Background_Maya_Sheet_05".to_string()),
            ("feedface".to_string(), "Night_Sky_Texture".to_string()),
        ]
    );
    assert_eq!(atlas_for_material_guid(&table, "12345678"), None);
    assert_eq!(atlas_for_material_guid(&table, "feedfaceffff").as_deref(), Some("Night_Sky_Texture.png"));
    assert_eq!(asset_filename("Foo"), "Foo.png");
    assert!(is_sky_texture_asset("Night_Sky_Texture"));
    assert!(is_sky_texture_asset("Maya_Backgrounds_sky"));
    assert!(!is_sky_texture_asset("Background_Maya_Sheet_02"));
}

#[test]
fn background_texture_lists_can_come_from_embedded_asset_scan() {
    let src = project(&[
        "Assets/Texture2D/Background_Maya_Sheet_05.png",
        "Assets/Texture2D/Background_Night_Sheet_01.png",
        "Assets/Texture2D/Background_Night_Sheet_01.png",
        "Assets/Texture2D/Maya_Backgrounds_sky.png",
        "Assets/Texture2D/Morning_Sky_Texture.png",
        "Assets/Texture2D/Night_SKY.PNG",
        "Assets/Texture2D/sub/Cave_sky.png",
        "Assets/Texture2D/Props_Generic_Sheet_01.png",
        "Assets/Material/Background_Fake_Sheet_01.png",
    ]);
    let atlases = bg_atlas_files(&src);
    let skies = sky_texture_files(&src);
    assert!(atlases.iter().any(|name| name == "Background_Maya_Sheet_05.png"));
    assert!(atlases.iter().any(|name| name == "Background_Night_Sheet_01.png"));
    assert!(skies.iter().any(|name| name == "Maya_Backgrounds_sky.png"));
    assert!(skies.iter().any(|name| name == "Morning_Sky_Texture.png"));
    assert!(skies.iter().all(|name| {
        let lower = name.to_ascii_lowercase();
        lower.ends_with("_sky_texture.png") || lower.ends_with("_sky.png")
    }));
    assert_eq!(
        atlases,
        vec!["Background_Maya_Sheet_05.png".to_string(), "Background_Night_Sheet_01.png".to_string()]
    );
    assert_eq!(
        skies,
        vec![
            "Cave_sky.png".to_string(),
            "Maya_Backgrounds_sky.png".to_string(),
            "Morning_Sky_Texture.png".to_string(),
        ]
    );
}

#[test]
fn parallax_tags_pick_layers_and_render_order() {
    assert_eq!(explicit_parallax_layer("ParallaxLayerSky"), Some(BgLayer::Sky));
    assert_eq!(explicit_parallax_layer("ParallaxLayerFixedFollowCamera"), Some(BgLayer::Camera));
    assert_eq!(explicit_parallax_layer("Ground"), None);
    assert_eq!(classify_group_layer("ParallaxLayerForeground"), BgLayer::Foreground);
    assert_eq!(classify_group_layer("Ground"), BgLayer::Ground);
    assert_eq!(classify_group_layer("Untagged"), BgLayer::Ground);
    let order: Vec<i32> = [
        BgLayer::Sky,
        BgLayer::Camera,
        BgLayer::Further,
        BgLayer::Far,
        BgLayer::Near,
        BgLayer::Ground,
        BgLayer::Foreground,
    ]
    .iter()
    .map(|l| l.order())
    .collect();
    assert_eq!(order, vec![0, 1, 2, 3, 4, 5, 20]);
}
