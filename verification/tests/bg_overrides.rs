use badpiggies_editor::data::bg_overrides::{parse_bg_overrides, BgOverrideValue, OverrideTarget};

fn view(v: &BgOverrideValue) -> (OverrideTarget, &str, Option<usize>, &str) {
    (v.target, v.name.as_str(), v.axis, v.value.as_str())
}

const OVERRIDE: &str = "GameObject BackgroundObject\n\
\tGameObject BGLayerNear\r\n\
\t\tComponent UnityEngine.Transform\n\
\t\t\tFloat x = 1.5\n\
\t\t\tFloat y = -2\n\
\t\tGameObject Near_Fill_01\n\
\t\t\tComponent UnityEngine.Transform\n\
\t\t\t\tFloat y = 3e1\n\
\t\t\t\tFloat w = 7\n\
\t\t\t\tFloat z = wide\n\
\tGameObject BGLayerFar\n\
\t\t\tFloat x = 9\n";

#[test]
fn background_overrides_follow_group_and_sprite_transforms() {
    let o = parse_bg_overrides(OVERRIDE);
    let got: Vec<_> = o.values.iter().map(view).collect();
    assert_eq!(
        got,
        vec![
            (OverrideTarget::Group, "BGLayerNear", Some(0), "1.5"),
            (OverrideTarget::Group, "BGLayerNear", Some(1), "-2"),
            (OverrideTarget::Sprite, "Near_Fill_01", Some(1), "3e1"),
            (OverrideTarget::Sprite, "Near_Fill_01", None, "7"),
        ]
    );
}

#[test]
fn background_overrides_need_a_transform_and_a_name() {
    // a value before any transform component applies to nothing
    assert!(parse_bg_overrides("\tGameObject Group\n\t\tFloat x = 1\n").values.is_empty());
    // a sprite transform with no sprite opened has no name to apply to
    let text = "\tGameObject Group\n\t\t\tComponent UnityEngine.Transform\n\t\t\t\tFloat x = 1\n";
    assert!(parse_bg_overrides(text).values.is_empty());
    assert!(parse_bg_overrides("").values.is_empty());
}
