use openbatrangs::text::{truncate, truncate_to, MAX_TOOL_OUTPUT};

#[test]
fn truncate_appends_omission_note() {
    let text = "x".repeat(MAX_TOOL_OUTPUT + 100);
    let result = truncate(text);
    assert!(result.len() < MAX_TOOL_OUTPUT + 200);
    assert!(result.contains("truncated"));
}

#[test]
fn short_text_is_unchanged() {
    let text = "hello".to_string();
    assert_eq!(truncate(text), "hello");
}

#[test]
fn truncate_to_respects_custom_limit() {
    let text = "abcdefgh".to_string();
    let result = truncate_to(text, 4);
    assert!(result.starts_with("abcd"));
    assert!(result.contains("truncated"));
}

#[test]
fn truncate_handles_unicode_char_boundaries() {
    let text = "😀😀😀😀".to_string();
    let result = truncate_to(text, 2);
    assert_eq!(result.chars().next(), Some('😀'));
    assert!(result.contains("truncated"));
}

#[test]
fn truncate_to_reports_exact_omitted_count() {
    let result = truncate_to("abcdefgh".to_string(), 4);
    assert_eq!(result, "abcd\n... (truncated, 4 chars omitted)");
}

#[test]
fn truncate_to_counts_characters_not_bytes() {
    // Two characters of two bytes each fit a limit of two characters.
    assert_eq!(truncate_to("éé".to_string(), 2), "éé");
    assert_eq!(truncate_to("😀😀😀😀".to_string(), 2), "😀😀\n... (truncated, 2 chars omitted)");
    // Exactly at the limit: unchanged.
    assert_eq!(truncate_to("abcd".to_string(), 4), "abcd");
}
