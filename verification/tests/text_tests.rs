use tui_kanban::text::{same_text, slugify, underscore_spaces};

#[test]
fn slugify_lowercases_and_replaces_spaces() {
    assert_eq!(slugify("In Review"), "in_review");
    assert_eq!(slugify("To Do"), "to_do");
    assert_eq!(slugify("DONE"), "done");
}

#[test]
fn slugify_keeps_every_space_as_an_underscore() {
    assert_eq!(slugify("A  B"), "a__b");
    assert_eq!(slugify(" lead"), "_lead");
    assert_eq!(slugify("trail "), "trail_");
}

#[test]
fn slugify_lowercases_beyond_ascii() {
    assert_eq!(slugify("ÄRGER Straße"), "ärger_straße");
}

#[test]
fn slugify_of_empty_is_empty() {
    assert_eq!(slugify(""), "");
}

#[test]
fn slugify_leaves_other_punctuation() {
    assert_eq!(slugify("Code-Review #2"), "code-review_#2");
}

#[test]
fn underscore_spaces_touches_spaces_only() {
    assert_eq!(underscore_spaces("a b\tc\nd"), "a_b\tc\nd");
    assert_eq!(underscore_spaces("Keep Case"), "Keep_Case");
    assert_eq!(underscore_spaces("   "), "___");
    assert_eq!(underscore_spaces(""), "");
}

#[test]
fn underscore_spaces_keeps_wide_characters() {
    assert_eq!(underscore_spaces("日本 語"), "日本_語");
}

#[test]
fn same_text_compares_characters() {
    assert!(same_text("bug", "bug"));
    assert!(!same_text("bug", "Bug"));
    assert!(!same_text("bug", "bugs"));
    assert!(same_text("", ""));
}
