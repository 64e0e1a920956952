use rustormy::http::truncate_for_log;

#[test]
fn truncate_short_string_is_unchanged() {
    assert_eq!(truncate_for_log("hello", 1024), "hello");
}

#[test]
fn truncate_long_string_marks_truncation() {
    let s = "x".repeat(2048);
    let out = truncate_for_log(&s, 1024);
    assert!(out.starts_with(&"x".repeat(1024)));
    assert!(out.ends_with("…[truncated]"));
    assert_eq!(out.len(), 1024 + "…[truncated]".len());
}

#[test]
fn truncate_handles_utf8_boundaries() {
    let s = "абв";
    let out = truncate_for_log(s, 3);
    assert!(out.starts_with('а'));
    assert!(out.ends_with("…[truncated]"));
}

#[test]
fn truncate_cuts_back_to_a_character_boundary() {
    assert_eq!(truncate_for_log("абв", 3), "а…[truncated]");
    assert_eq!(truncate_for_log("абв", 6), "абв");
}
