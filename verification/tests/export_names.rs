//! File names for exported notes.

use knot::commands::export_import::{candidate, sanitize_filename, unique_file_path};
use std::cell::RefCell;

#[test]
fn test_sanitize_filename_removes_windows_forbidden_chars() {
    assert_eq!(sanitize_filename(r#"foo\bar/baz:qux*?"<>|"#), "foo_bar_baz_qux______");
}

#[test]
fn test_sanitize_filename_trims_whitespace_and_dots() {
    assert_eq!(sanitize_filename("  hello  "), "hello");
    assert_eq!(sanitize_filename("...test..."), "test");
    assert_eq!(sanitize_filename("  ..hello..  "), "hello");
}

#[test]
fn test_sanitize_filename_empty_returns_untitled() {
    assert_eq!(sanitize_filename(""), "Untitled");
    assert_eq!(sanitize_filename("   "), "Untitled");
    assert_eq!(sanitize_filename("..."), "Untitled");
}

#[test]
fn test_sanitize_filename_preserves_unicode() {
    assert_eq!(sanitize_filename("日本語のノート"), "日本語のノート");
    assert_eq!(sanitize_filename("Ünïcödë"), "Ünïcödë");
}

#[test]
fn test_sanitize_filename_control_chars() {
    assert_eq!(sanitize_filename("hello\0world"), "hello_world");
    assert_eq!(sanitize_filename("tab\there"), "tab_here");
}

#[test]
fn sanitize_trims_in_three_passes() {
    // White space, then full stops, then white space again: no more.
    assert_eq!(sanitize_filename(". . test"), ". test");
    assert_eq!(sanitize_filename(" . a . "), "a");
    assert_eq!(sanitize_filename(". .. ."), "..");
    assert_eq!(sanitize_filename("a.b"), "a.b");
}

#[test]
fn sanitize_replaces_before_it_trims() {
    // A tab or a newline at an end has become an underscore and stays.
    assert_eq!(sanitize_filename("\tname\n"), "_name_");
    assert_eq!(sanitize_filename("\u{85}x"), "_x");
    assert_eq!(sanitize_filename("\u{7f}\u{9f}"), "__");
    assert_eq!(sanitize_filename("\u{a0}."), "Untitled");
}

#[test]
fn sanitize_trims_unicode_white_space() {
    assert_eq!(sanitize_filename("\u{a0}\u{3000}note\u{2003}\u{205f}"), "note");
    assert_eq!(sanitize_filename("\u{1680}\u{2028}\u{2029}\u{202f}"), "Untitled");
    // A zero-width space is no white space.
    assert_eq!(sanitize_filename("\u{200b}a"), "\u{200b}a");
}

#[test]
fn sanitize_agrees_with_the_standard_library() {
    let titles = [
        "plain",
        "  ..mixed: case?..  ",
        "\u{0}\u{1f}\u{20}\u{7e}\u{7f}\u{80}\u{9f}\u{a0}\u{a1}",
        "\u{2000}\u{200a}\u{200b} x \u{3000}",
        "...",
        "|||",
        " . . ",
    ];
    for title in titles {
        let replaced: String = title
            .chars()
            .map(|c| match c {
                '\\' | '/' | ':' | '*' | '?' | '"' | '<' | '>' | '|' => '_',
                c if c.is_control() => '_',
                c => c,
            })
            .collect();
        let trimmed = replaced.trim().trim_matches('.').trim();
        let expected = if trimmed.is_empty() { "Untitled" } else { trimmed };
        assert_eq!(sanitize_filename(title), expected, "title {:?}", title);
    }
}

#[test]
fn white_space_and_control_sets_are_those_of_unicode() {
    for code in 0..=0x10ffffu32 {
        if let Some(c) = char::from_u32(code) {
            let text: String = [c, 'x'].iter().collect();
            let cleaned = sanitize_filename(&text);
            let expected = if c.is_control()
                || matches!(c, '\\' | '/' | ':' | '*' | '?' | '"' | '<' | '>' | '|')
            {
                "_x".to_string()
            } else if c.is_whitespace() || c == '.' {
                "x".to_string()
            } else {
                text.clone()
            };
            assert_eq!(cleaned, expected, "code point {:x}", code);
        }
    }
}

#[test]
fn candidates_are_numbered_from_two() {
    assert_eq!(candidate("note", "md", 0), "note.md");
    assert_eq!(candidate("note", "md", 1), "note.md");
    assert_eq!(candidate("note", "md", 2), "note (2).md");
    assert_eq!(candidate("note", "md", 10), "note (10).md");
    assert_eq!(candidate("", "", 4_294_967_295), " (4294967295).");
}

#[test]
fn unique_name_without_conflict() {
    let asked = RefCell::new(Vec::new());
    let name = unique_file_path("knot_test", "md", |name: &str| {
        asked.borrow_mut().push(name.to_string());
        false
    });
    assert_eq!(name, Some("knot_test.md".to_string()));
    assert_eq!(*asked.borrow(), vec!["knot_test.md"]);
}

#[test]
fn unique_name_with_conflict() {
    let taken = ["knot_test.md"];
    let name = unique_file_path("knot_test", "md", |name: &str| taken.contains(&name));
    assert_eq!(name, Some("knot_test (2).md".to_string()));
}

#[test]
fn unique_name_with_multiple_conflicts() {
    let taken = ["knot_test.md", "knot_test (2).md", "knot_test (4).md"];
    let asked = RefCell::new(Vec::new());
    let name = unique_file_path("knot_test", "md", |name: &str| {
        asked.borrow_mut().push(name.to_string());
        taken.contains(&name)
    });
    assert_eq!(name, Some("knot_test (3).md".to_string()));
    // Each name is asked about once, in order, and none after the free one.
    assert_eq!(*asked.borrow(), vec!["knot_test.md", "knot_test (2).md", "knot_test (3).md"]);
}
