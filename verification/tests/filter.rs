use badpiggies_editor::filter::Filter;

#[test]
fn empty_filter_matches_everything_and_highlights_nothing() {
    let (f, valid) = Filter::compile("");
    assert!(valid);
    assert!(f.is_match("anything"));
    assert!(f.is_match(""));
    assert!(f.find_iter("anything").is_empty());
}

#[test]
fn regex_filters_match_case_insensitively() {
    let (f, valid) = Filter::compile("a.c");
    assert!(valid);
    assert!(f.is_match("xAbC"));
    assert!(!f.is_match("ab"));
    assert_eq!(f.find_iter("abc ABC a-c"), vec![(0, 3), (4, 7), (8, 11)]);
    let (g, _) = Filter::compile("^Level_\\d+$");
    assert!(g.is_match("level_21"));
    assert!(!g.is_match("level_x"));
}

#[test]
fn invalid_patterns_fall_back_to_lowercase_substrings() {
    let (f, valid) = Filter::compile("(");
    assert!(!valid);
    assert!(f.is_match("a(b"));
    assert!(!f.is_match("ab"));
    assert_eq!(f.find_iter("x(y(("), vec![(1, 2), (3, 4), (4, 5)]);

    let (g, valid) = Filter::compile("ÄB[");
    assert!(!valid);
    assert!(g.is_match("xäb[y"));
    // byte ranges of the lowercased text: 'x' is one byte, 'ä' two
    assert_eq!(g.find_iter("xÄB[ äb["), vec![(1, 5), (6, 10)]);

    let (h, _) = Filter::compile("aa(");
    // occurrences do not overlap
    assert_eq!(h.find_iter("aa(aa(aa("), vec![(0, 3), (3, 6), (6, 9)]);
}

#[test]
fn a_compiled_regex_keeps_its_pattern_across_calls() {
    let (f, valid) = Filter::compile("b+");
    assert!(valid);
    for _ in 0..3 {
        assert_eq!(f.find_iter("abbcB"), vec![(1, 3), (4, 5)]);
        assert!(f.is_match("xB"));
    }
}
