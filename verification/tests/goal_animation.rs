use badpiggies_editor::data::goal_animation::{
    parse_goal_animation_state, set_goal_animation_state, GoalAnimationState,
};

#[test]
fn goal_animation_override_round_trips() {
    let mut raw = "Component GoalArea\n".to_string();
    set_goal_animation_state(&mut raw, GoalAnimationState::Vanishing);
    assert_eq!(
        parse_goal_animation_state(Some(&raw)),
        GoalAnimationState::Vanishing
    );

    set_goal_animation_state(&mut raw, GoalAnimationState::Idle);
    assert_eq!(parse_goal_animation_state(Some(&raw)), GoalAnimationState::Idle);
}

#[test]
fn missing_override_reads_as_idle() {
    assert_eq!(parse_goal_animation_state(None), GoalAnimationState::Idle);
    assert_eq!(
        parse_goal_animation_state(Some("Component GoalArea\n")),
        GoalAnimationState::Idle
    );
}

#[test]
fn goal_animation_labels() {
    assert_eq!(GoalAnimationState::Idle.label(), "Idle");
    assert_eq!(GoalAnimationState::Vanishing.label(), "Vanishing");
}

#[test]
fn setting_keeps_other_lines_and_setting_again_changes_nothing() {
    let original = "Component GoalArea\r\n\tString bp_goalAnimation = Idle\n  Float speed = 1\n";
    for state in [GoalAnimationState::Vanishing, GoalAnimationState::Idle] {
        let mut raw = original.to_string();
        set_goal_animation_state(&mut raw, state);
        let kept: Vec<&str> = raw.lines().filter(|l| !l.contains("bp_goalAnimation")).collect();
        assert_eq!(kept, vec!["Component GoalArea", "  Float speed = 1"]);
        let once = raw.clone();
        set_goal_animation_state(&mut raw, state);
        assert_eq!(raw, once);
    }
    let mut raw = original.to_string();
    set_goal_animation_state(&mut raw, GoalAnimationState::Vanishing);
    assert_eq!(
        raw,
        "Component GoalArea\n\tString bp_goalAnimation = Vanishing\n  Float speed = 1\n"
    );
}
