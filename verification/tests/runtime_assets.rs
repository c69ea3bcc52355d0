use badpiggies_editor::data::runtime_assets::{
    list_runtime_assets, missing_runtime_assets, read_runtime_asset_bytes,
    read_runtime_asset_text, required_runtime_assets, RuntimeAssetCache,
};

#[test]
fn every_required_asset_is_missing_from_an_empty_directory() {
    let missing = missing_runtime_assets(&[]);
    assert_eq!(missing.len(), 30);
    assert_eq!(missing[0], "ui/app-icon.png");
    assert_eq!(missing[29], "shader/depth_mask__maskoverlaynv__runtime.wgsl");
    assert_eq!(required_runtime_assets().len(), 30);
}

#[test]
fn present_assets_are_not_reported_missing() {
    let present: Vec<String> = required_runtime_assets()
        .iter()
        .filter(|p| !p.starts_with("shader/"))
        .map(|p| p.to_string())
        .collect();
    let missing = missing_runtime_assets(&present);
    assert_eq!(missing.len(), 13);
    assert!(missing.iter().all(|p| p.starts_with("shader/")));
    assert_eq!(missing[0], "shader/e2d__curve.wgsl");
    let all: Vec<String> = required_runtime_assets().iter().map(|p| p.to_string()).collect();
    assert!(missing_runtime_assets(&all).is_empty());
}

#[test]
fn runtime_asset_listing_filters_and_sorts() {
    let files = vec![
        "ui/tool-pan.svg".to_string(),
        "locales/en-US.ftl".to_string(),
        "ui/app-icon.png".to_string(),
        "ui/drop-icon.svg".to_string(),
        "locales/zh-CN.ftl".to_string(),
    ];
    assert_eq!(
        list_runtime_assets(&files, "ui/", ".svg"),
        vec!["ui/drop-icon.svg".to_string(), "ui/tool-pan.svg".to_string()]
    );
    assert_eq!(
        list_runtime_assets(&files, "locales/", ".ftl"),
        vec!["locales/en-US.ftl".to_string(), "locales/zh-CN.ftl".to_string()]
    );
    assert!(list_runtime_assets(&files, "fonts/", "").is_empty());
}

#[test]
fn cache_keeps_what_was_read_first() {
    let mut cache = RuntimeAssetCache::new();
    assert_eq!(read_runtime_asset_bytes(&cache, "locales/en-US.ftl"), None);
    cache.insert("locales/en-US.ftl", b"hello = Hello".to_vec());
    cache.insert("ui/app-icon.png", vec![0x89, 0x50]);
    cache.insert("locales/en-US.ftl", b"hello = Hi".to_vec());
    assert_eq!(read_runtime_asset_bytes(&cache, "locales/en-US.ftl"), Some(b"hello = Hello".to_vec()));
    assert_eq!(read_runtime_asset_bytes(&cache, "ui/app-icon.png"), Some(vec![0x89, 0x50]));
    assert_eq!(read_runtime_asset_text(&cache, "locales/en-US.ftl"), Some("hello = Hello".to_string()));
    assert_eq!(cache.entries.len(), 2);
    cache.insert("bad.txt", vec![0xff, 0xfe]);
    assert_eq!(read_runtime_asset_text(&cache, "bad.txt"), None);
    assert_eq!(read_runtime_asset_text(&cache, "unknown.txt"), None);
}
