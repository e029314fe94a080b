use hacksaw::{die, Document, Editor, Key, Position, Size};

fn editor_over(text: &str, width: u16, height: u16) -> Editor {
    let doc = Document::from_text(text, None);
    Editor::new(doc, Size { width, height }, String::new(), 0)
}

#[test]
fn draw_row_shows_visible_slice() {
    let mut e = editor_over("abcdefghij\n", 4, 3);
    for _ in 0..6 {
        e.move_cursor(Key::Right);
    }
    e.scroll();
    assert_eq!(e.offset.x, 3);
    let row = e.document.row(0).unwrap();
    assert_eq!(e.draw_row(row), "defg");
}

#[test]
fn draw_rows_fills_screen_with_buffer_then_tildes() {
    let e = editor_over("one\ntwo\n", 10, 4);
    let rows = e.draw_rows();
    assert_eq!(rows.len(), 4);
    assert_eq!(rows[0], "one");
    assert_eq!(rows[1], "two");
    assert_eq!(rows[2], "~");
    assert_eq!(rows[3], "~");
}

#[test]
fn draw_rows_follows_vertical_offset() {
    let mut e = editor_over("0\n1\n2\n3\n4\n5\n6\n7\n8\n9\n", 10, 3);
    for _ in 0..7 {
        e.move_cursor(Key::Down);
    }
    e.scroll();
    let rows = e.draw_rows();
    assert_eq!(rows, vec!["5", "6", "7"]);
}

#[test]
fn empty_document_shows_welcome_banner() {
    let e = editor_over("", 40, 3);
    let rows = e.draw_rows();
    assert_eq!(rows.len(), 3);
    assert_eq!(rows[0], "~");
    assert_eq!(rows[1], "~       Hacksaw -- version 0.1.0");
    assert_eq!(rows[2], "~");
}

#[test]
fn welcome_banner_is_truncated_to_narrow_screens() {
    let e = editor_over("", 10, 3);
    assert_eq!(e.draw_welcome_message(), "~Hacksaw -");
}

#[test]
fn status_bar_layout() {
    let e = editor_over("a\nb\n", 30, 5);
    assert_eq!(e.draw_status_bar(), "[No Name] - 2 lines     1 of 2");
}

#[test]
fn status_bar_shows_filename_and_cursor_row() {
    let doc = Document::from_text("a\nb\nc\n", Some("notes.txt".to_string()));
    let mut e = Editor::new(doc, Size { width: 30, height: 5 }, String::new(), 0);
    e.move_cursor(Key::Down);
    e.move_cursor(Key::Down);
    assert_eq!(e.draw_status_bar(), "notes.txt - 3 lines     3 of 3");
}

#[test]
fn status_bar_truncates_long_filenames() {
    let doc = Document::from_text("x\n", Some("a_very_long_file_name_indeed.txt".to_string()));
    let e = Editor::new(doc, Size { width: 40, height: 5 }, String::new(), 0);
    let bar = e.draw_status_bar();
    assert!(bar.starts_with("a_very_long_file_nam - 1 lines"));
    assert_eq!(bar.chars().count(), 40);
}

#[test]
fn status_bar_is_truncated_when_narrow() {
    let e = editor_over("a\n", 8, 5);
    let bar = e.draw_status_bar();
    assert_eq!(bar.chars().count(), 8);
    assert_eq!(bar, "[No Name");
}

#[test]
fn message_bar_shows_unexpired_message_only() {
    let mut e = editor_over("x\n", 5, 3);
    e.report_save(true, 1000);
    assert_eq!(e.draw_message_bar(1000), "File ");
    assert_eq!(e.draw_message_bar(5999), "File ");
    assert_eq!(e.draw_message_bar(6000), "");
}

#[test]
fn screen_cursor_is_relative_to_offset() {
    let mut e = editor_over("0\n1\n2\n3\n4\n5\n6\n7\n8\n9\n", 10, 3);
    for _ in 0..7 {
        e.move_cursor(Key::Down);
    }
    e.scroll();
    assert_eq!(e.screen_cursor(), Position { x: 0, y: 2 });
}

#[test]
fn die_reports_the_error() {
    assert_eq!(die("terminal went away"), "error: terminal went away");
}
