use promptpuppet::text::{contains, join, same_text, starts_with, trim_end_matches};

#[test]
fn same_text_compares_characters() {
    assert!(same_text("pose", "pose"));
    assert!(!same_text("pose", "poses"));
    assert!(!same_text("pose", "posE"));
    assert!(same_text("", ""));
    assert!(same_text("h\u{e9}llo \u{2705}", "h\u{e9}llo \u{2705}"));
}

#[test]
fn starts_with_is_a_prefix_test() {
    assert!(starts_with("left arm at side", "left arm"));
    assert!(starts_with("left", ""));
    assert!(!starts_with("left", "left arm"));
    assert!(!starts_with("right arm", "left"));
}

#[test]
fn contains_finds_a_substring_anywhere() {
    assert!(contains("half squat", "squat"));
    assert!(contains("half squat", "half"));
    assert!(contains("half squat", "f s"));
    assert!(contains("abc", ""));
    assert!(!contains("abc", "abcd"));
    assert!(!contains("standing", "squat"));
}

#[test]
fn trim_end_matches_strips_every_repetition() {
    assert_eq!(trim_end_matches("poses.json", ".json"), "poses");
    assert_eq!(trim_end_matches("poses.json.json", ".json"), "poses");
    assert_eq!(trim_end_matches("poses", ".json"), "poses");
    assert_eq!(trim_end_matches(".json", ".json"), "");
    assert_eq!(trim_end_matches("a.jsonx", ".json"), "a.jsonx");
    assert_eq!(trim_end_matches("abc", ""), "abc");
}

#[test]
fn join_puts_the_separator_between_parts() {
    let parts = vec!["a".to_string(), "b".to_string(), "c".to_string()];
    assert_eq!(join(&parts, ", "), "a, b, c");
    assert_eq!(join(&vec!["only".to_string()], ", "), "only");
    assert_eq!(join(&Vec::new(), ", "), "");
}
