use badpiggies_editor::data::unity_anim::sanitize_unity_yaml;

#[test]
fn unity_yaml_loses_directives_and_class_tags() {
    let text = "%YAML 1.1\r\n%TAG !u! tag:unity3d.com,2011:\n--- !u!74 &7400000\nAnimationClip:\n  m_Name: Glow\n";
    assert_eq!(sanitize_unity_yaml(text), "---\nAnimationClip:\n  m_Name: Glow\n");
    assert_eq!(sanitize_unity_yaml(""), "");
    // a last line without a newline gets one; indented markers stay
    assert_eq!(sanitize_unity_yaml("a: 1\n  --- !u!1"), "a: 1\n  --- !u!1\n");
}
