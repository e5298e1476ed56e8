use ellipse::grapheme_count;
use ellipse::Ellipse;

#[test]
fn smoke() {
    assert_eq!("Hello, World!".truncate_ellipse(3), "Hel...");
}

#[test]
fn ellipse_with() {
    assert_eq!("Hello, World!".truncate_ellipse_with(3, "---"), "Hel---");
}

#[test]
fn truncate_to_empty() {
    assert_eq!("Hello, World!".truncate_ellipse(0), "");
}

#[test]
fn weird_chars() {
    assert_eq!("🇩🇪🇬🇧🇮🇹🇫🇷".truncate_ellipse(2), "🇩🇪🇬🇧...");
}

#[test]
fn empty_text_stays_empty() {
    assert_eq!("".truncate_ellipse(0), "");
    assert_eq!("".truncate_ellipse(5), "");
}

#[test]
fn fits_exactly_is_unchanged() {
    assert_eq!("abc".truncate_ellipse(3), "abc");
}

#[test]
fn shorter_than_limit_is_unchanged() {
    assert_eq!("abc".truncate_ellipse(10), "abc");
    assert_eq!("🇩🇪🇬🇧🇮🇹🇫🇷".truncate_ellipse(4), "🇩🇪🇬🇧🇮🇹🇫🇷");
}

#[test]
fn zero_length_ignores_marker() {
    assert_eq!("Hello".truncate_ellipse_with(0, "---"), "");
}

#[test]
fn empty_marker_keeps_prefix_only() {
    assert_eq!("abcd".truncate_ellipse_with(2, ""), "ab");
}

#[test]
fn multi_codepoint_marker_kept_whole() {
    assert_eq!("abcdef".truncate_ellipse_with(2, "🇫🇷"), "ab🇫🇷");
}

#[test]
fn combining_marks_kept_whole() {
    assert_eq!(
        "a\u{310}e\u{301}o\u{308}\u{332}".truncate_ellipse(2),
        "a\u{310}e\u{301}..."
    );
}

#[test]
fn counts_clusters_not_codepoints() {
    assert_eq!(grapheme_count("🇩🇪🇬🇧🇮🇹🇫🇷"), 4);
    assert_eq!(grapheme_count("a\u{310}e\u{301}o\u{308}\u{332}"), 3);
    assert_eq!(grapheme_count(""), 0);
    assert_eq!(grapheme_count("Hello, World!"), 13);
}

#[test]
fn truncated_length_adds_marker_clusters() {
    let out = "Hello, World!".truncate_ellipse(5);
    assert_eq!(grapheme_count(&out), 5 + grapheme_count("..."));
    let flags = "🇩🇪🇬🇧🇮🇹🇫🇷".truncate_ellipse_with(2, "🇫🇷");
    assert_eq!(grapheme_count(&flags), 3);
}

#[test]
fn marker_is_a_whole_suffix() {
    let out = "Hello, World!".truncate_ellipse_with(4, "…!");
    assert!(out.ends_with("…!"));
    assert_eq!(out, "Hell…!");
}
