use cargo_artifact_dependency::{
    join_path_str, join_with_separator, sanitize_path_component, sort_texts, text_le_str,
};

#[test]
fn sanitize_path_component_replaces_path_unsafe_characters() {
    assert_eq!(sanitize_path_component("abc-DEF_123.4"), "abc-DEF_123.4");
    assert_eq!(
        sanitize_path_component("^14/bin:name+thin"),
        "_14_bin_name_thin"
    );
}

#[test]
fn sanitize_replaces_non_ascii_characters_one_for_one() {
    assert_eq!(sanitize_path_component("héllo wörld"), "h_llo_w_rld");
    assert_eq!(sanitize_path_component(""), "");
}

#[test]
fn sanitize_is_idempotent() {
    let once = sanitize_path_component("a/b c:d+é");
    assert_eq!(sanitize_path_component(&once), once);
}

#[test]
fn join_path_follows_unix_rules() {
    assert_eq!(join_path_str("/tmp", "bin", '/'), "/tmp/bin");
    assert_eq!(join_path_str("/tmp/", "bin", '/'), "/tmp/bin");
    assert_eq!(join_path_str("", "bin", '/'), "bin");
    assert_eq!(join_path_str("/tmp", "/abs", '/'), "/abs");
    assert_eq!(join_path_str("/tmp", "", '/'), "/tmp/");
}

#[test]
fn join_with_separator_joins_neighbours() {
    let parts = vec!["a".to_string(), "b".to_string(), "c".to_string()];
    assert_eq!(join_with_separator(&parts, "__"), "a__b__c");
    assert_eq!(join_with_separator(&vec!["x".to_string()], "__"), "x");
    assert_eq!(join_with_separator(&Vec::new(), "__"), "");
}

#[test]
fn texts_compare_character_by_character() {
    assert!(text_le_str("a", "b"));
    assert!(text_le_str("a", "ab"));
    assert!(!text_le_str("ab", "a"));
    assert!(text_le_str("", ""));
    assert!(text_le_str("Z", "a"));
    let sorted = sort_texts(&vec!["b".to_string(), "a".to_string(), "ab".to_string()]);
    assert_eq!(sorted, vec!["a", "ab", "b"]);
}

#[test]
fn join_path_with_a_windows_separator() {
    assert_eq!(join_path_str("C:\\tmp", "bin", '\\'), "C:\\tmp\\bin");
    assert_eq!(join_path_str("C:\\tmp\\", "bin", '\\'), "C:\\tmp\\bin");
    assert_eq!(join_path_str("C:/tmp/", "bin", '\\'), "C:/tmp/bin");
}
