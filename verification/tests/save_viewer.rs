use badpiggies_editor::crypto::{encrypt_save_file, SaveFileType};
use badpiggies_editor::data::level_db::{
    build_lookup, contraption_hash, LevelCategory, LevelEntry, LevelLookup,
};
use badpiggies_editor::diagnostics::error::{AppError, AppErrorMessage};
use badpiggies_editor::save_viewer::{
    char_offset_of_line, clean_xml_text, layer_visible, localized_file_type_label,
    part_type_name, resolve_level_name, xml_entry_line, SaveViewerData,
};

fn lookup() -> LevelLookup {
    build_lookup(&[LevelEntry {
        label: "1-1".to_string(),
        scene: "Level_21".to_string(),
        category: LevelCategory::Episode,
    }])
}

#[test]
fn undo_after_an_edit_restores_and_redo_brings_it_back() {
    let mut h = SaveViewerData::new("<a/>".to_string());
    assert!(!h.can_undo() && !h.can_redo());
    h.push_undo();
    h.xml_text = "<b/>".to_string();
    assert!(h.can_undo());
    assert!(h.undo());
    assert_eq!(h.xml_text, "<a/>");
    assert!(h.dirty);
    assert!(h.can_redo());
    assert!(h.redo());
    assert_eq!(h.xml_text, "<b/>");
    assert!(!h.redo());
}

#[test]
fn undo_history_keeps_the_last_hundred_snapshots() {
    let mut h = SaveViewerData::new("0".to_string());
    for i in 1..=150 {
        h.push_undo();
        h.xml_text = i.to_string();
    }
    assert_eq!(h.undo_stack.len(), 100);
    assert_eq!(h.undo_stack[0], "50");
    assert_eq!(h.undo_stack[99], "149");
    // a new snapshot drops what could be redone
    assert!(h.undo());
    assert!(h.can_redo());
    h.push_undo();
    assert!(!h.can_redo());
}

#[test]
fn undo_during_a_text_edit_returns_to_where_the_edit_started() {
    let mut h = SaveViewerData::new("start".to_string());
    h.push_undo();
    h.xml_text = "first".to_string();
    h.editing_snapshot = Some("first".to_string());
    h.xml_text = "first and more".to_string();
    assert!(h.undo());
    assert_eq!(h.xml_text, "first");
    assert!(h.editing_snapshot.is_none());
    assert!(h.undo());
    assert_eq!(h.xml_text, "start");
    assert!(!h.undo());
}

#[test]
fn xml_text_is_cleaned_of_bom_and_carriage_returns() {
    assert_eq!(clean_xml_text("\u{feff}<a>\r\n</a>\r".as_bytes()), "<a>\n</a>\n");
    assert_eq!(clean_xml_text(b"<a/>"), "<a/>");
    assert_eq!(clean_xml_text(&[0x3c, 0xff, 0x3e]), "<\u{fffd}>");
}

#[test]
fn entry_lines_and_line_offsets() {
    assert_eq!(xml_entry_line(Some(SaveFileType::Contraption), 0), 3);
    assert_eq!(xml_entry_line(Some(SaveFileType::Progress), 4), 6);
    assert_eq!(xml_entry_line(None, 1), 3);
    let text = "ab\ncd\n\nef";
    assert_eq!(char_offset_of_line(text, 0), 0);
    assert_eq!(char_offset_of_line(text, 1), 3);
    assert_eq!(char_offset_of_line(text, 3), 7);
    assert_eq!(char_offset_of_line(text, 9), 9);
}

#[test]
fn contraption_files_resolve_to_their_level() {
    let l = lookup();
    let stem = contraption_hash("Level_21");
    assert_eq!(
        resolve_level_name(&l, &format!("{stem}.contraption")).as_deref(),
        Some("Level_21 (1-1)")
    );
    assert_eq!(
        resolve_level_name(&l, &format!("{}.CONTRAPTION", stem.to_lowercase())).as_deref(),
        Some("Level_21 (1-1)")
    );
    assert_eq!(resolve_level_name(&l, &format!("{stem}.dat")), None);
    assert_eq!(resolve_level_name(&l, "0000.contraption"), None);
}

#[test]
fn file_type_labels_and_part_names() {
    assert_eq!(localized_file_type_label(None), "save_file_type_unknown");
    assert_eq!(
        localized_file_type_label(Some(SaveFileType::Contraption)),
        SaveFileType::Contraption.localized_label()
    );
    assert_eq!(part_type_name(0), "Unknown");
    assert_eq!(part_type_name(10), "Pig");
    assert_eq!(part_type_name(48), "TimeBomb");
    assert_eq!(part_type_name(49), "?");
    assert_eq!(part_type_name(-1), "?");
}

#[test]
fn part_layers_follow_their_neighbours() {
    // wings: the top frame shows with a part above or beside
    assert!(layer_visible(14, 0, 0, 0, "TopFrameSprite", &[(0, 1)]));
    assert!(!layer_visible(14, 0, 0, 0, "TopFrameSprite", &[(0, -1)]));
    assert!(layer_visible(14, 0, 0, 0, "BottomFrameSprite", &[]));
    // a rocket's bottom attachment shows when nothing else attaches
    assert!(layer_visible(17, 0, 0, 0, "BottomAttachment", &[]));
    assert!(!layer_visible(24, 0, 0, 0, "BottomAttachment", &[]));
    assert!(layer_visible(17, 0, 0, 0, "RightAttachment", &[(1, 0)]));
    // rotated by one step, "right" looks up
    assert!(layer_visible(17, 0, 0, 1, "RightAttachment", &[(0, 1)]));
    assert!(!layer_visible(39, 0, 0, 0, "SpringVisualization", &[]));
    assert!(!layer_visible(41, 0, 0, 0, "SpringVisualization", &[]));
    // diagonal attachments only at diagonal rotations
    assert!(layer_visible(47, 0, 0, 4, "TopRightAttachment", &[(1, 0)]));
    assert!(!layer_visible(47, 0, 0, 0, "TopRightAttachment", &[(1, 0)]));
    assert!(layer_visible(10, 0, 0, 0, "Anything", &[]));
}

#[test]
fn loading_a_save_file_decrypts_and_cleans_its_xml() {
    let l = lookup();
    let xml = "\u{feff}<Data>\r\n<a/>\r</Data>";
    let encrypted = encrypt_save_file(&SaveFileType::Achievements, xml.as_bytes()).unwrap();
    let v = SaveViewerData::load(&l, "Achievements.xml", &encrypted);
    assert_eq!(v.file_type, Some(SaveFileType::Achievements));
    assert_eq!(v.xml_text, "<Data>\n<a/>\n</Data>");
    assert!(v.error.is_none());
    assert!(v.level_name.is_none());
    assert!(!v.can_undo() && !v.can_redo());

    let exported = v.export_encrypted().unwrap().unwrap();
    let back = SaveViewerData::load(&l, "Achievements.xml", &exported);
    assert_eq!(back.xml_text, v.xml_text);

    let stem = contraption_hash("Level_21");
    let part = encrypt_save_file(&SaveFileType::Contraption, b"<C/>").unwrap();
    let c = SaveViewerData::load(&l, &format!("{stem}.contraption"), &part);
    assert_eq!(c.xml_text, "<C/>");
    assert_eq!(c.level_name.as_deref(), Some("Level_21 (1-1)"));
}

#[test]
fn loading_an_unknown_or_damaged_save_file_keeps_the_error() {
    let l = lookup();
    let v = SaveViewerData::load(&l, "notes.txt", b"abc");
    assert!(v.file_type.is_none());
    assert_eq!(v.file_type_label, "save_file_type_unknown");
    assert!(v.xml_text.is_empty());
    assert!(matches!(
        v.error,
        Some(AppError::InvalidData(AppErrorMessage::Key("error_unknown_file_type")))
    ));
    assert!(v.export_encrypted().unwrap().is_none());

    let short = SaveViewerData::load(&l, "Progress.dat", &[1, 2, 3]);
    assert!(short.xml_text.is_empty());
    assert!(matches!(
        short.error,
        Some(AppError::InvalidData(AppErrorMessage::Key("error_file_too_short_sha1")))
    ));
}

#[test]
fn an_edit_session_becomes_one_undo_step_when_focus_leaves() {
    let mut h = SaveViewerData::new("<a/>".to_string());
    h.begin_edit("<a/>".to_string());
    h.xml_text = "<ab/>".to_string();
    // a second keystroke keeps the snapshot taken at the first
    h.begin_edit("<ab/>".to_string());
    h.xml_text = "<abc/>".to_string();
    assert_eq!(h.editing_snapshot.as_deref(), Some("<a/>"));
    h.redo_stack.push("<x/>".to_string());
    h.commit_edit_snapshot();
    assert!(h.editing_snapshot.is_none());
    assert_eq!(h.undo_stack, vec!["<a/>".to_string()]);
    assert!(h.redo_stack.is_empty());
    assert!(h.undo());
    assert_eq!(h.xml_text, "<a/>");

    // a session that ends where it started leaves no undo step
    let mut k = SaveViewerData::new("<k/>".to_string());
    k.begin_edit("<k/>".to_string());
    k.commit_edit_snapshot();
    assert!(k.editing_snapshot.is_none());
    assert!(k.undo_stack.is_empty());
}

#[test]
fn history_operations_keep_the_file_type_error_and_level() {
    let l = lookup();
    let stem = contraption_hash("Level_21");
    let part = encrypt_save_file(&SaveFileType::Contraption, b"<C/>").unwrap();
    let mut c = SaveViewerData::load(&l, &format!("{stem}.contraption"), &part);
    c.push_undo();
    c.xml_text = "<D/>".to_string();
    assert!(c.undo());
    assert!(c.redo());
    c.begin_edit("<D/>".to_string());
    c.xml_text = "<E/>".to_string();
    c.commit_edit_snapshot();
    assert_eq!(c.file_type, Some(SaveFileType::Contraption));
    assert_eq!(c.file_type_label, "save_file_type_contraption");
    assert!(c.error.is_none());
    assert_eq!(c.level_name.as_deref(), Some("Level_21 (1-1)"));
}

#[test]
fn re_encrypting_an_unedited_save_reproduces_the_file() {
    let l = lookup();
    for (ty, name) in [
        (SaveFileType::Progress, "Progress.dat"),
        (SaveFileType::Achievements, "Achievements.xml"),
    ] {
        let xml = "<?xml version=\"1.0\"?>\n<Data>\n  <é n=\"1\"/>\n</Data>\n";
        let enc = encrypt_save_file(&ty, xml.as_bytes()).unwrap();
        let v = SaveViewerData::load(&l, name, &enc);
        assert_eq!(v.xml_text.as_bytes(), xml.as_bytes());
        assert_eq!(v.export_encrypted().unwrap(), Some(enc));
    }
}

#[test]
fn rocket_and_tnt_read_rotations_up_to_the_last_four() {
    let top = i32::MAX - 3;
    // rotation i32::MAX - 3 is a multiple of 4 plus 0: right stays right
    assert!(layer_visible(17, 0, 0, top, "RightAttachment", &[(1, 0)]));
    assert!(!layer_visible(24, 0, 0, top, "TopAttachment", &[(1, 0)]));
}

#[test]
fn the_parse_outcome_becomes_the_error_of_a_known_file() {
    let l = lookup();
    let enc = encrypt_save_file(&SaveFileType::Achievements, b"<a/>").unwrap();
    let mut v = SaveViewerData::load(&l, "Achievements.xml", &enc);
    v.record_parse(Some(AppError::invalid_data_key("error_bad_xml")));
    assert!(matches!(v.error, Some(AppError::InvalidData(AppErrorMessage::Key("error_bad_xml")))));
    v.record_parse(None);
    assert!(v.error.is_none());
    let mut u = SaveViewerData::load(&l, "notes.txt", b"abc");
    u.record_parse(None);
    assert!(u.error.is_some());
}
