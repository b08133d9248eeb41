use rmacs::document::{join, Cursor, Document, Edited};

fn lines(lines: &[&str]) -> Vec<String> {
    lines.iter().map(|line| String::from(*line)).collect()
}

fn at(line: usize, column: usize) -> Cursor {
    Cursor { line, column }
}

#[test]
fn new_document_is_empty() {
    let document = Document::new();
    assert_eq!(document.text(), "");
    assert_eq!(document.cursor(), at(0, 0));
}

#[test]
fn loaded_text_reads_back_exactly() {
    for text in ["", "abc", "abc\n", "a\r\nb\r\n", "one\ntwo\n\n", "caf\u{e9}\n", "\n"] {
        let document = Document::with_text(String::from(text));
        assert_eq!(document.text(), text);
        assert_eq!(document.cursor(), at(0, 0));
    }
}

#[test]
fn join_puts_line_feeds_between_lines() {
    assert_eq!(join(&lines(&[])), "");
    assert_eq!(join(&lines(&[""])), "");
    assert_eq!(join(&lines(&["hi"])), "hi");
    assert_eq!(join(&lines(&["one", "two"])), "one\ntwo");
    assert_eq!(join(&lines(&["one", "", "three"])), "one\n\nthree");
    assert_eq!(join(&lines(&["one", ""])), "one\n");
    assert_eq!(join(&lines(&["", ""])), "\n");
}

#[test]
fn a_move_changes_the_cursor_only() {
    let mut document = Document::with_text(String::from("a\nb\n"));
    document.apply(Edited::Moved { cursor: at(1, 1) });
    assert_eq!(document.text(), "a\nb\n");
    assert_eq!(document.cursor(), at(1, 1));
    document.apply(Edited::Moved { cursor: at(0, 0) });
    assert_eq!(document.text(), "a\nb\n");
    assert_eq!(document.cursor(), at(0, 0));
}

#[test]
fn an_edit_sets_text_and_cursor() {
    let mut document = Document::new();
    document.apply(Edited::Changed { lines: lines(&["hi"]), cursor: at(0, 2) });
    assert_eq!(document.text(), "hi");
    assert_eq!(document.cursor(), at(0, 2));
    document.apply(Edited::Changed { lines: lines(&["hi", "there"]), cursor: at(1, 5) });
    assert_eq!(document.text(), "hi\nthere");
    assert_eq!(document.cursor(), at(1, 5));
}

#[test]
fn an_edit_ends_the_exact_reading_of_the_loaded_text() {
    let mut document = Document::with_text(String::from("a\r\nb\n"));
    assert_eq!(document.text(), "a\r\nb\n");
    document.apply(Edited::Changed { lines: lines(&["a", "", "b"]), cursor: at(0, 0) });
    assert_eq!(document.text(), "a\n\nb");
}

#[test]
fn an_edit_to_no_lines_leaves_an_empty_text() {
    let mut document = Document::with_text(String::from("abc"));
    document.apply(Edited::Changed { lines: Vec::new(), cursor: at(0, 0) });
    assert_eq!(document.text(), "");
}

#[test]
fn edited_can_be_cloned_and_compared() {
    let edited = Edited::Changed { lines: lines(&["x"]), cursor: at(0, 1) };
    assert_eq!(edited.clone(), edited);
    assert_ne!(edited, Edited::Moved { cursor: at(0, 1) });
}
