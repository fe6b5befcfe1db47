use scheme_cycler::document::render_document;

#[test]
fn lines_are_joined_and_closed_by_a_newline() {
    let lines = vec!["a".to_string(), "b".to_string(), "c".to_string()];
    assert_eq!(render_document(&lines), "a\nb\nc\n");
}

#[test]
fn single_line_gets_its_newline() {
    assert_eq!(render_document(&vec!["colors: *beta".to_string()]), "colors: *beta\n");
}

#[test]
fn no_lines_give_a_lone_newline() {
    assert_eq!(render_document(&Vec::new()), "\n");
}

#[test]
fn empty_lines_are_kept() {
    let lines = vec!["".to_string(), "x".to_string(), "".to_string()];
    assert_eq!(render_document(&lines), "\nx\n\n");
}

#[test]
fn rendering_agrees_with_joining() {
    let lines = vec!["a: 1".to_string(), "  b: 2".to_string()];
    assert_eq!(render_document(&lines), format!("{}\n", lines.join("\n")));
}
