use hacksaw::{Document, Editor, EditorAction, Key, Mode, Position, Size, StatusMessage};

fn editor_over(text: &str, width: u16, height: u16) -> Editor {
    let doc = Document::from_text(text, None);
    Editor::new(doc, Size { width, height }, String::new(), 0)
}

#[test]
fn cursor_row_stays_within_document() {
    let mut e = editor_over("a\nb\nc\n", 10, 5);
    let keys = [
        Key::Down,
        Key::Down,
        Key::Down,
        Key::Down,
        Key::Down,
        Key::Up,
        Key::Left,
        Key::Right,
        Key::Down,
        Key::Up,
        Key::Up,
        Key::Up,
        Key::Up,
        Key::Left,
    ];
    for k in keys {
        e.move_cursor(k);
        assert!(e.cursor_position.y <= e.document.len());
    }
}

#[test]
fn down_stops_one_past_last_line() {
    let mut e = editor_over("a\nb\n", 10, 5);
    for _ in 0..10 {
        e.move_cursor(Key::Down);
    }
    assert_eq!(e.cursor_position.y, 2);
}

#[test]
fn left_at_origin_is_a_no_op() {
    let mut e = editor_over("hello\nworld\n", 10, 5);
    e.move_cursor(Key::Left);
    assert_eq!(e.cursor_position, Position { x: 0, y: 0 });
}

#[test]
fn left_at_column_zero_wraps_to_previous_line_end() {
    let mut e = editor_over("hello\nworld\n", 10, 5);
    e.move_cursor(Key::Down);
    assert_eq!(e.cursor_position, Position { x: 0, y: 1 });
    e.move_cursor(Key::Left);
    assert_eq!(e.cursor_position, Position { x: 5, y: 0 });
}

#[test]
fn right_has_no_clamp_at_line_end() {
    let mut e = editor_over("hi\n", 10, 5);
    for _ in 0..5 {
        e.move_cursor(Key::Right);
    }
    assert_eq!(e.cursor_position, Position { x: 5, y: 0 });
}

#[test]
fn scroll_down_puts_cursor_on_last_visible_row() {
    // Terminal height 3, ten lines, cursor moved to row 7: the offset
    // becomes 7 - 3 + 1 = 5.
    let mut e = editor_over("0\n1\n2\n3\n4\n5\n6\n7\n8\n9\n", 10, 3);
    for _ in 0..7 {
        e.move_cursor(Key::Down);
    }
    e.scroll();
    assert_eq!(e.cursor_position.y, 7);
    assert_eq!(e.offset.y, 5);
    assert!(e.offset.y <= e.cursor_position.y);
    assert!(e.cursor_position.y < e.offset.y + 3);
}

#[test]
fn scroll_up_follows_cursor() {
    let mut e = editor_over("0\n1\n2\n3\n4\n5\n6\n7\n8\n9\n", 10, 3);
    for _ in 0..9 {
        e.move_cursor(Key::Down);
    }
    e.scroll();
    assert_eq!(e.offset.y, 7);
    for _ in 0..9 {
        e.move_cursor(Key::Up);
    }
    e.scroll();
    assert_eq!(e.cursor_position.y, 0);
    assert_eq!(e.offset.y, 0);
}

#[test]
fn scroll_right_and_back() {
    let mut e = editor_over("abcdefghij\n", 4, 3);
    for _ in 0..6 {
        e.move_cursor(Key::Right);
    }
    e.scroll();
    assert_eq!(e.offset.x, 3);
    for _ in 0..6 {
        e.move_cursor(Key::Left);
    }
    e.scroll();
    assert_eq!(e.offset.x, 0);
}

#[test]
fn backspace_at_line_start_joins_rows() {
    let mut e = editor_over("ab\ncd\n", 10, 5);
    e.move_cursor(Key::Down);
    let before = e.document.len();
    let action = e.process_keypad(Key::Backspace, 0);
    assert_eq!(action, EditorAction::Nothing);
    assert_eq!(e.document.len(), before - 1);
    assert_eq!(e.document.row(0).unwrap().contents(), "abcd");
    assert_eq!(e.cursor_position, Position { x: 2, y: 0 });
}

#[test]
fn backspace_removes_character_left_of_cursor() {
    let mut e = editor_over("abc\n", 10, 5);
    e.move_cursor(Key::Right);
    e.move_cursor(Key::Right);
    e.process_keypad(Key::Backspace, 0);
    assert_eq!(e.document.row(0).unwrap().contents(), "ac");
    assert_eq!(e.cursor_position, Position { x: 1, y: 0 });
}

#[test]
fn backspace_at_origin_does_nothing() {
    let mut e = editor_over("abc\n", 10, 5);
    e.process_keypad(Key::Backspace, 0);
    assert_eq!(e.document.row(0).unwrap().contents(), "abc");
    assert_eq!(e.cursor_position, Position { x: 0, y: 0 });
}

#[test]
fn insert_after_overshoot_appends_but_enter_splits() {
    // From the end of "hello", one step right overshoots; a plain
    // character then appends to row 0, while Enter instead splits the
    // row, leaving a third (empty) row between the two original ones.
    let mut e = editor_over("hello\nworld\n", 40, 10);
    for _ in 0..5 {
        e.move_cursor(Key::Right);
    }
    assert_eq!(e.cursor_position, Position { x: 5, y: 0 });
    e.move_cursor(Key::Right);
    assert_eq!(e.cursor_position, Position { x: 6, y: 0 });

    let mut bang = editor_over("hello\nworld\n", 40, 10);
    for _ in 0..6 {
        bang.move_cursor(Key::Right);
    }
    bang.process_keypad(Key::Char('!'), 0);
    assert_eq!(bang.document.len(), 2);
    assert_eq!(bang.document.row(0).unwrap().contents(), "hello!");
    assert_eq!(bang.document.row(1).unwrap().contents(), "world");

    e.process_keypad(Key::Char('\n'), 0);
    assert_eq!(e.document.len(), 3);
    assert_eq!(e.document.row(0).unwrap().contents(), "hello");
    assert_eq!(e.document.row(1).unwrap().contents(), "");
    assert_eq!(e.document.row(2).unwrap().contents(), "world");
}

#[test]
fn typing_inserts_and_advances() {
    let mut e = editor_over("", 10, 5);
    e.process_keypad(Key::Char('h'), 0);
    e.process_keypad(Key::Char('i'), 0);
    assert_eq!(e.document.row(0).unwrap().contents(), "hi");
    assert_eq!(e.cursor_position, Position { x: 2, y: 0 });
}

#[test]
fn quit_key_enters_quitting_mode() {
    let mut e = editor_over("x\n", 10, 5);
    let action = e.process_keypad(Key::Ctrl('q'), 0);
    assert_eq!(action, EditorAction::Quit);
    assert_eq!(e.mode, Mode::Quitting);
    let later = e.process_keypad(Key::Char('a'), 0);
    assert_eq!(later, EditorAction::Nothing);
    assert_eq!(e.document.row(0).unwrap().contents(), "x");
}

#[test]
fn save_with_filename_asks_for_save() {
    let doc = Document::from_text("x\n", Some("named.txt".to_string()));
    let mut e = Editor::new(doc, Size { width: 10, height: 5 }, String::new(), 0);
    let action = e.process_keypad(Key::Ctrl('s'), 0);
    assert_eq!(action, EditorAction::Save);
    assert_eq!(e.mode, Mode::Running);
}

#[test]
fn save_without_filename_prompts_and_completes() {
    let mut e = editor_over("x\n", 20, 5);
    let action = e.process_keypad(Key::Ctrl('s'), 100);
    assert_eq!(action, EditorAction::Nothing);
    assert_eq!(e.mode, Mode::Prompting);
    assert_eq!(e.status_message.text, "Save as: ");

    e.process_keypad(Key::Char('a'), 101);
    e.process_keypad(Key::Char('.'), 102);
    e.process_keypad(Key::Char('t'), 103);
    assert_eq!(e.status_message.text, "Save as: a.t");

    let done = e.process_keypad(Key::Char('\n'), 104);
    assert_eq!(done, EditorAction::Save);
    assert_eq!(e.mode, Mode::Running);
    assert_eq!(e.document.filename().as_deref(), Some("a.t"));
    assert_eq!(e.status_message.text, "");
}

#[test]
fn prompt_ignores_control_characters() {
    let mut e = editor_over("x\n", 20, 5);
    e.process_keypad(Key::Ctrl('s'), 0);
    e.process_keypad(Key::Char('a'), 1);
    e.process_keypad(Key::Char('\u{8}'), 2);
    e.process_keypad(Key::Char('b'), 3);
    e.process_keypad(Key::Char('\n'), 4);
    assert_eq!(e.document.filename().as_deref(), Some("ab"));
}

#[test]
fn escape_cancels_prompt() {
    let mut e = editor_over("x\n", 20, 5);
    e.process_keypad(Key::Ctrl('s'), 0);
    assert_eq!(e.mode, Mode::Prompting);
    let action = e.process_keypad(Key::Esc, 1);
    assert_eq!(action, EditorAction::Nothing);
    assert_eq!(e.mode, Mode::Running);
    assert!(e.document.filename().is_none());
}

#[test]
fn report_save_sets_status_message() {
    let mut e = editor_over("x\n", 40, 5);
    e.report_save(true, 7);
    assert_eq!(e.status_message.text, "File saved successfully");
    assert_eq!(e.status_message.time, 7);
    e.report_save(false, 8);
    assert_eq!(e.status_message.text, "Error saving process");
}

#[test]
fn status_message_expires_after_five_seconds() {
    let m = StatusMessage::from("hi".to_string(), 1000);
    assert!(m.is_visible(1000));
    assert!(m.is_visible(5999));
    assert!(!m.is_visible(6000));
    assert!(!m.is_visible(0));
}
