use snapper::sanitize::sanitize_title;

#[test]
fn test_sanitize_keeps_allowed_chars() {
    assert_eq!(sanitize_title("Test Video!!"), "Test Video");
    assert_eq!(sanitize_title("a/b\\c:d*e"), "abcde");
    assert_eq!(sanitize_title("under_score-dash.dot"), "under_score-dash.dot");
}

#[test]
fn test_sanitize_collapses_and_trims_spaces() {
    assert_eq!(sanitize_title("  hello   world  "), "hello world");
    assert_eq!(sanitize_title("a  b"), "a b");
    assert_eq!(sanitize_title("   "), "");
    assert_eq!(sanitize_title(""), "");
}

#[test]
fn test_sanitize_truncates_to_100() {
    let long: String = "x".repeat(250);
    let out = sanitize_title(&long);
    assert_eq!(out.chars().count(), 100);
    assert_eq!(out, "x".repeat(100));
}

// Sanitizing an already-sanitized title yields the same string, the output
// never exceeds 100 characters, and holds only the allowed classes.
#[test]
fn test_sanitize_idempotent() {
    let samples = [
        "Test Video!!",
        "  weird///title  with   spaces & symbols!?  ",
        "ŁŚĆ żółć — tytuł",
        "a.b.c",
        &"y z".repeat(80),
    ];
    for s in samples {
        let once = sanitize_title(s);
        let twice = sanitize_title(&once);
        assert_eq!(once, twice);
        assert!(once.chars().count() <= 100);
        assert!(once
            .chars()
            .all(|c| c.is_alphanumeric() || c == ' ' || c == '-' || c == '_' || c == '.'));
    }
}

// Truncation never leaves a dangling trailing space.
#[test]
fn test_sanitize_truncation_boundary_space() {
    let mut s = "x".repeat(99);
    s.push(' ');
    s.push_str("yyyy");
    let out = sanitize_title(&s);
    assert_eq!(out, "x".repeat(99));
}
