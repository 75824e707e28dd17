use commit_suggest::text::split_lines;

#[test]
fn split_two_lines_with_trailing_newline() {
    let lines = split_lines("a.rs\nb.rs\n");
    assert_eq!(lines, vec!["a.rs".to_string(), "b.rs".to_string()]);
}

#[test]
fn split_without_trailing_newline() {
    let lines = split_lines("a.rs\nb.rs");
    assert_eq!(lines, vec!["a.rs".to_string(), "b.rs".to_string()]);
}

#[test]
fn split_empty_text_gives_no_lines() {
    let lines = split_lines("");
    assert!(lines.is_empty());
}

#[test]
fn split_drops_blank_lines() {
    let lines = split_lines("\n\nsrc/a.rs\n\nsrc/b.rs\n");
    assert_eq!(lines, vec!["src/a.rs".to_string(), "src/b.rs".to_string()]);
}

#[test]
fn split_only_newlines_gives_no_lines() {
    let lines = split_lines("\n\n\n");
    assert!(lines.is_empty());
}

#[test]
fn split_single_line() {
    let lines = split_lines("lib.rs");
    assert_eq!(lines, vec!["lib.rs".to_string()]);
}
