//! The editing session: cursor movement, scrolling, key dispatch and the
//! strings the render pipeline emits.

use vstd::prelude::*;
use crate::document::{doc_deleted, doc_inserted, Document};
use crate::row::Row;
use crate::terminal::Size;
use crate::text::{clamp_slice, dec_rep, spaces};

verus! {

/// An unsigned coordinate pair. Used both for the cursor (buffer space:
/// `y` is a row index, `x` a character column that may equal the row
/// length, meaning "after the last character") and for the viewport
/// offset (the top-left buffer coordinate currently shown). The two uses
/// must not be conflated.
#[derive(Clone, Copy, PartialEq, Eq, Structural, Debug)]
pub struct Position {
    pub x: usize,
    pub y: usize,
}

impl Default for Position {
    /// The origin, `(0, 0)`.
    fn default() -> (p: Position)
        ensures
            p.x == 0,
            p.y == 0,
    {
        Position { x: 0, y: 0 }
    }
}

/// A transient notification shown in the message bar, stamped with its
/// creation time in milliseconds of some monotonic clock the caller
/// chooses; it is visible only while less than five seconds old.
pub struct StatusMessage {
    pub text: String,
    pub time: u64,
}

impl StatusMessage {
    /// A message created at time `now`.
    pub fn from(message: String, now: u64) -> (m: StatusMessage)
        ensures
            m.text == message,
            m.time == now,
    {
        StatusMessage { time: now, text: message }
    }

    /// Whether the message is still shown at time `now`: less than five
    /// seconds have passed since it was created.
    pub open spec fn spec_visible(&self, now: u64) -> bool {
        self.time <= now < self.time + 5000
    }

    /// Whether the message is still shown at time `now`.
    pub fn is_visible(&self, now: u64) -> (b: bool)
        ensures
            b == self.spec_visible(now),
    {
        self.time <= now && now - self.time < 5000
    }
}

/// A decoded keystroke, as the session engine understands it.
#[derive(Clone, Copy, PartialEq, Eq, Structural, Debug)]
pub enum Key {
    Up,
    Down,
    Left,
    Right,
    Backspace,
    Esc,
    Char(char),
    Ctrl(char),
    Other,
}

/// The session's state: editing normally, collecting a line of input at
/// a prompt, or about to exit.
#[derive(Clone, Copy, PartialEq, Eq, Structural, Debug)]
pub enum Mode {
    Running,
    Prompting,
    Quitting,
}

/// What the caller must do after a keystroke was dispatched: nothing,
/// write the document out, or leave the session loop.
#[derive(Clone, Copy, PartialEq, Eq, Structural, Debug)]
pub enum EditorAction {
    Nothing,
    Save,
    Quit,
}

/// The cursor after one navigation intent against a buffer of the given
/// shape: up and down step by row (down stops at the row index one past
/// the last line), left steps back and wraps to the end of the previous
/// row at column zero (a no-op at the origin), and right steps forward
/// without any clamp — the cursor may overshoot a short row, and
/// rendering and scrolling tolerate that.
pub open spec fn moved_cursor(cursor: Position, key: Key, doc: Seq<Seq<char>>) -> Position {
    let x = cursor.x;
    let y = cursor.y;
    match key {
        Key::Up => Position { x, y: if y > 0 { (y - 1) as usize } else { 0 } },
        Key::Down => Position { x, y: if y < doc.len() { (y + 1) as usize } else { y } },
        Key::Left => if x > 0 {
            Position { x: (x - 1) as usize, y }
        } else if y > 0 {
            Position {
                x: if y - 1 < doc.len() {
                    doc[y - 1].len() as usize
                } else {
                    0
                },
                y: (y - 1) as usize,
            }
        } else {
            cursor
        },
        Key::Right => Position {
            x: if x < usize::MAX {
                (x + 1) as usize
            } else {
                x
            },
            y,
        },
        _ => cursor,
    }
}

/// The viewport offset that keeps the cursor visible in a window of the
/// given width and height: scroll just far enough up/left when the
/// cursor lies before the offset, just far enough down/right when it
/// lies at or past the far edge, and stay put otherwise. All arithmetic
/// saturates at the ends of `usize`.
pub open spec fn scrolled(cursor: Position, offset: Position, width: u16, height: u16) -> Position {
    let w = width as int;
    let h = height as int;
    let x = cursor.x as int;
    let y = cursor.y as int;
    let ny = if y < offset.y {
        y
    } else if y - offset.y >= h {
        if y - h + 1 > usize::MAX {
            usize::MAX as int
        } else {
            y - h + 1
        }
    } else {
        offset.y as int
    };
    let nx = if x < offset.x {
        x
    } else if x - offset.x >= w {
        if x - w + 1 > usize::MAX {
            usize::MAX as int
        } else {
            x - w + 1
        }
    } else {
        offset.x as int
    };
    Position { x: nx as usize, y: ny as usize }
}

/// The welcome banner shown a third of the way down an empty buffer's
/// screen: the program name and version, centred behind a `~` and
/// spaces, truncated to the terminal width.
pub open spec fn welcome_line(width: int) -> Seq<char> {
    let msg = "Hacksaw -- version 0.1.0"@;
    let padding = if width > msg.len() {
        (width - msg.len()) / 2
    } else {
        0
    };
    let pad = if padding > 0 {
        padding - 1
    } else {
        0
    };
    clamp_slice(seq!['~'] + spaces(pad) + msg, 0, width)
}

/// What one screen row `r` shows: the visible slice of the buffer row
/// behind it; on an empty buffer, the welcome banner a third of the way
/// down; otherwise a bare `~` filler.
pub open spec fn screen_row_text(
    doc: Seq<Seq<char>>,
    offset: Position,
    width: u16,
    height: u16,
    r: int,
) -> Seq<char> {
    let idx = offset.y + r;
    if idx < doc.len() {
        clamp_slice(doc[idx], offset.x as int, offset.x + width)
    } else if doc.len() == 0 && r == height as int / 3 {
        welcome_line(width as int)
    } else {
        seq!['~']
    }
}

/// The status bar: the file name (or a placeholder) cut to twenty
/// characters and the line count on the left, the one-based cursor row
/// over the line count on the right, space-padded apart and truncated to
/// the terminal width.
pub open spec fn status_line_text(name: Option<Seq<char>>, lines: int, y: int, width: int) -> Seq<
    char,
> {
    let disp = match name {
        Some(n) => clamp_slice(n, 0, 20),
        None => "[No Name]"@,
    };
    let left = disp + " - "@ + dec_rep(lines as nat) + " lines"@;
    let shown = if y + 1 > usize::MAX {
        usize::MAX as int
    } else {
        y + 1
    };
    let ind = dec_rep(shown as nat) + " of "@ + dec_rep(lines as nat);
    let total = left.len() + ind.len();
    let padded = if width > total {
        left + spaces(width - total - 1)
    } else {
        left
    };
    clamp_slice(padded + seq![' '] + ind, 0, width)
}

/// One editing session: the buffer, the cursor, the viewport offset, the
/// terminal extent, the transient status message and the prompt state.
pub struct Editor {
    pub mode: Mode,
    pub size: Size,
    pub cursor_position: Position,
    pub offset: Position,
    pub document: Document,
    pub status_message: StatusMessage,
    pub prompt: String,
    pub prompt_input: String,
}

impl Editor {
    /// The session invariant: the buffer is well formed and the cursor's
    /// row index never exceeds the number of rows (it may equal it,
    /// addressing the line one past the end).
    pub open spec fn wf(&self) -> bool {
        &&& self.document.wf()
        &&& self.cursor_position.y <= self.document@.len()
    }

    /// A fresh session over `document`, with the cursor and the viewport
    /// at the origin and `initial_status` shown in the message bar.
    pub fn new(document: Document, size: Size, initial_status: String, now: u64) -> (e: Editor)
        ensures
            e.mode is Running,
            e.size == size,
            e.cursor_position == (Position { x: 0, y: 0 }),
            e.offset == (Position { x: 0, y: 0 }),
            e.document == document,
            e.status_message.text == initial_status,
            e.status_message.time == now,
            e.prompt@ == Seq::<char>::empty(),
            e.prompt_input@ == Seq::<char>::empty(),
            document.wf() ==> e.wf(),
    {
        Editor {
            mode: Mode::Running,
            size,
            cursor_position: Position { x: 0, y: 0 },
            offset: Position { x: 0, y: 0 },
            document,
            status_message: StatusMessage::from(initial_status, now),
            prompt: String::new(),
            prompt_input: String::new(),
        }
    }

    /// Applies one navigation intent to the cursor; the buffer, viewport
    /// and everything else stay as they were. The cursor's row bound is
    /// preserved: it never moves past the row index one past the last
    /// line.
    pub fn move_cursor(&mut self, key: Key)
        ensures
            final(self).cursor_position == moved_cursor(
                old(self).cursor_position,
                key,
                old(self).document@,
            ),
            final(self).document == old(self).document,
            final(self).offset == old(self).offset,
            final(self).size == old(self).size,
            final(self).mode == old(self).mode,
            final(self).status_message == old(self).status_message,
            final(self).prompt == old(self).prompt,
            final(self).prompt_input == old(self).prompt_input,
            old(self).wf() ==> final(self).wf(),
    {
        let mut x = self.cursor_position.x;
        let mut y = self.cursor_position.y;
        let height = self.document.len();
        match key {
            Key::Up => {
                if y > 0 {
                    y = y - 1;
                }
            },
            Key::Down => {
                if y < height {
                    y = y + 1;
                }
            },
            Key::Left => {
                if x > 0 {
                    x = x - 1;
                } else if y > 0 {
                    y = y - 1;
                    x = match self.document.row(y) {
                        Some(row) => row.len(),
                        None => 0,
                    };
                }
            },
            Key::Right => {
                x = x.saturating_add(1);
            },
            _ => {},
        }
        self.cursor_position = Position { x, y };
    }

    /// Recomputes the viewport offset from the cursor, so that the cursor
    /// lies inside the visible window whenever the window has any extent.
    pub fn scroll(&mut self)
        ensures
            final(self).offset == scrolled(
                old(self).cursor_position,
                old(self).offset,
                old(self).size.width,
                old(self).size.height,
            ),
            old(self).size.height > 0 ==> final(self).offset.y <= old(self).cursor_position.y
                < final(self).offset.y + old(self).size.height,
            old(self).size.width > 0 ==> final(self).offset.x <= old(self).cursor_position.x
                < final(self).offset.x + old(self).size.width,
            final(self).cursor_position == old(self).cursor_position,
            final(self).document == old(self).document,
            final(self).size == old(self).size,
            final(self).mode == old(self).mode,
            final(self).status_message == old(self).status_message,
            final(self).prompt == old(self).prompt,
            final(self).prompt_input == old(self).prompt_input,
            old(self).wf() ==> final(self).wf(),
    {
        let x = self.cursor_position.x;
        let y = self.cursor_position.y;
        let width = self.size.width as usize;
        let height = self.size.height as usize;
        if y < self.offset.y {
            self.offset.y = y;
        } else if y - self.offset.y >= height {
            self.offset.y = (y - height).saturating_add(1);
        }
        if x < self.offset.x {
            self.offset.x = x;
        } else if x - self.offset.x >= width {
            self.offset.x = (x - width).saturating_add(1);
        }
    }

    /// Dispatches one keystroke at time `now` and reports what the caller
    /// must do next. While running: the quit key ends the session, the
    /// save key saves (or opens a "Save as" prompt when the buffer has no
    /// file name yet), a character key inserts and steps right, backspace
    /// steps left and deletes there (joining rows at a line start), the
    /// arrow keys move the cursor, anything else is ignored; the viewport
    /// is then rescrolled. While prompting: printable characters extend
    /// the input, the newline key completes the prompt (naming the file
    /// and asking for the save), escape cancels it, anything else is
    /// ignored.
    pub fn process_keypad(&mut self, key: Key, now: u64) -> (action: EditorAction)
        ensures
            final(self).size == old(self).size,
            old(self).wf() ==> final(self).wf(),
            old(self).mode is Quitting ==> *final(self) == *old(self) && action is Nothing,
            old(self).mode is Running && key == Key::Ctrl('q') ==> {
                &&& final(self).mode is Quitting
                &&& final(self).document == old(self).document
                &&& final(self).cursor_position == old(self).cursor_position
                &&& final(self).offset == old(self).offset
                &&& final(self).status_message == old(self).status_message
                &&& action is Quit
            },
            old(self).mode is Running && key == Key::Ctrl('s') && old(
                self,
            ).document.spec_filename() is None ==> {
                &&& final(self).mode is Prompting
                &&& final(self).prompt@ == "Save as: "@
                &&& final(self).prompt_input@ == Seq::<char>::empty()
                &&& final(self).status_message.text@ == "Save as: "@
                &&& final(self).status_message.time == now
                &&& final(self).document == old(self).document
                &&& final(self).cursor_position == old(self).cursor_position
                &&& final(self).offset == scrolled(
                    old(self).cursor_position,
                    old(self).offset,
                    old(self).size.width,
                    old(self).size.height,
                )
                &&& action is Nothing
            },
            old(self).mode is Running && key == Key::Ctrl('s') && old(
                self,
            ).document.spec_filename() is Some ==> {
                &&& final(self).mode is Running
                &&& final(self).document == old(self).document
                &&& final(self).cursor_position == old(self).cursor_position
                &&& final(self).status_message == old(self).status_message
                &&& final(self).offset == scrolled(
                    old(self).cursor_position,
                    old(self).offset,
                    old(self).size.width,
                    old(self).size.height,
                )
                &&& action is Save
            },
            old(self).mode is Running && (key matches Key::Char(c)) ==> {
                let doc1 = doc_inserted(
                    old(self).document@,
                    old(self).cursor_position.x as int,
                    old(self).cursor_position.y as int,
                    key->Char_0,
                );
                let cur1 = moved_cursor(old(self).cursor_position, Key::Right, doc1);
                &&& final(self).mode is Running
                &&& final(self).document@ == doc1
                &&& final(self).document.spec_filename() == old(self).document.spec_filename()
                &&& final(self).cursor_position == cur1
                &&& final(self).offset == scrolled(
                    cur1,
                    old(self).offset,
                    old(self).size.width,
                    old(self).size.height,
                )
                &&& final(self).status_message == old(self).status_message
                &&& action is Nothing
            },
            old(self).mode is Running && key == Key::Backspace && (old(self).cursor_position.x > 0
                || old(self).cursor_position.y > 0) ==> {
                let cur1 = moved_cursor(old(self).cursor_position, Key::Left, old(self).document@);
                &&& final(self).mode is Running
                &&& final(self).cursor_position == cur1
                &&& final(self).document@ == doc_deleted(
                    old(self).document@,
                    cur1.x as int,
                    cur1.y as int,
                )
                &&& final(self).document.spec_filename() == old(self).document.spec_filename()
                &&& final(self).offset == scrolled(
                    cur1,
                    old(self).offset,
                    old(self).size.width,
                    old(self).size.height,
                )
                &&& final(self).status_message == old(self).status_message
                &&& action is Nothing
            },
            old(self).mode is Running && key == Key::Backspace && old(self).cursor_position.x == 0
                && old(self).cursor_position.y == 0 ==> {
                &&& final(self).mode is Running
                &&& final(self).document == old(self).document
                &&& final(self).cursor_position == old(self).cursor_position
                &&& final(self).offset == scrolled(
                    old(self).cursor_position,
                    old(self).offset,
                    old(self).size.width,
                    old(self).size.height,
                )
                &&& final(self).status_message == old(self).status_message
                &&& action is Nothing
            },
            old(self).mode is Running && (key == Key::Up || key == Key::Down || key == Key::Left
                || key == Key::Right) ==> {
                let cur1 = moved_cursor(old(self).cursor_position, key, old(self).document@);
                &&& final(self).mode is Running
                &&& final(self).document == old(self).document
                &&& final(self).cursor_position == cur1
                &&& final(self).offset == scrolled(
                    cur1,
                    old(self).offset,
                    old(self).size.width,
                    old(self).size.height,
                )
                &&& final(self).status_message == old(self).status_message
                &&& action is Nothing
            },
            old(self).mode is Running && (key == Key::Esc || key == Key::Other || (key matches Key::Ctrl(c)
                && c != 'q' && c != 's')) ==> {
                &&& final(self).mode is Running
                &&& final(self).document == old(self).document
                &&& final(self).cursor_position == old(self).cursor_position
                &&& final(self).offset == scrolled(
                    old(self).cursor_position,
                    old(self).offset,
                    old(self).size.width,
                    old(self).size.height,
                )
                &&& final(self).status_message == old(self).status_message
                &&& action is Nothing
            },
            old(self).mode is Prompting && key == Key::Char('\n') ==> {
                &&& final(self).mode is Running
                &&& final(self).document@ == old(self).document@
                &&& final(self).document.spec_filename() == Some(old(self).prompt_input@)
                &&& final(self).cursor_position == old(self).cursor_position
                &&& final(self).offset == old(self).offset
                &&& final(self).status_message.text@ == Seq::<char>::empty()
                &&& final(self).status_message.time == now
                &&& action is Save
            },
            old(self).mode is Prompting && (key matches Key::Char(c) && c != '\n'
                && !crate::text::spec_is_control(c)) ==> {
                &&& final(self).mode is Prompting
                &&& final(self).document == old(self).document
                &&& final(self).cursor_position == old(self).cursor_position
                &&& final(self).offset == old(self).offset
                &&& final(self).prompt == old(self).prompt
                &&& final(self).prompt_input@ == old(self).prompt_input@.push(key->Char_0)
                &&& final(self).status_message.text@ == old(self).prompt@ + old(
                    self,
                ).prompt_input@.push(key->Char_0)
                &&& final(self).status_message.time == now
                &&& action is Nothing
            },
            old(self).mode is Prompting && key == Key::Esc ==> {
                &&& final(self).mode is Running
                &&& final(self).document == old(self).document
                &&& final(self).cursor_position == old(self).cursor_position
                &&& final(self).offset == old(self).offset
                &&& final(self).status_message.text@ == Seq::<char>::empty()
                &&& final(self).status_message.time == now
                &&& action is Nothing
            },
            old(self).mode is Prompting && (key == Key::Up || key == Key::Down || key == Key::Left
                || key == Key::Right || key == Key::Backspace || key == Key::Other || (
            key matches Key::Ctrl(c)) || (key matches Key::Char(c) && c != '\n'
                && crate::text::spec_is_control(c))) ==> *final(self) == *old(self)
                && action is Nothing,
    {
        match self.mode {
            Mode::Quitting => EditorAction::Nothing,
            Mode::Prompting => {
                match key {
                    Key::Char(c) => {
                        if c == '\n' {
                            let name = self.prompt_input.clone();
                            self.document.set_filename(name);
                            self.mode = Mode::Running;
                            self.status_message = StatusMessage::from(String::new(), now);
                            EditorAction::Save
                        } else if !crate::text::is_control_char(c) {
                            self.prompt_input.push(c);
                            let mut shown = self.prompt.clone();
                            shown.append(self.prompt_input.as_str());
                            self.status_message = StatusMessage::from(shown, now);
                            EditorAction::Nothing
                        } else {
                            EditorAction::Nothing
                        }
                    },
                    Key::Esc => {
                        self.mode = Mode::Running;
                        self.status_message = StatusMessage::from(String::new(), now);
                        EditorAction::Nothing
                    },
                    _ => EditorAction::Nothing,
                }
            },
            Mode::Running => {
                match key {
                    Key::Ctrl(c) => {
                        if c == 'q' {
                            self.mode = Mode::Quitting;
                            EditorAction::Quit
                        } else if c == 's' {
                            if !self.document.has_filename() {
                                self.mode = Mode::Prompting;
                                self.prompt = "Save as: ".to_owned();
                                self.prompt_input = String::new();
                                self.status_message = StatusMessage::from(
                                    "Save as: ".to_owned(),
                                    now,
                                );
                                self.scroll();
                                EditorAction::Nothing
                            } else {
                                self.scroll();
                                EditorAction::Save
                            }
                        } else {
                            self.scroll();
                            EditorAction::Nothing
                        }
                    },
                    Key::Char(c) => {
                        let pos = self.cursor_position;
                        self.document.insert(&pos, c);
                        self.move_cursor(Key::Right);
                        self.scroll();
                        EditorAction::Nothing
                    },
                    Key::Backspace => {
                        if self.cursor_position.x > 0 || self.cursor_position.y > 0 {
                            self.move_cursor(Key::Left);
                            let pos = self.cursor_position;
                            self.document.delete(&pos);
                        }
                        self.scroll();
                        EditorAction::Nothing
                    },
                    Key::Up | Key::Down | Key::Left | Key::Right => {
                        self.move_cursor(key);
                        self.scroll();
                        EditorAction::Nothing
                    },
                    _ => {
                        self.scroll();
                        EditorAction::Nothing
                    },
                }
            },
        }
    }

    /// The visible slice of one buffer row: the characters from the
    /// horizontal offset up to the right edge of the terminal.
    pub fn draw_row(&self, row: &Row) -> (s: String)
        ensures
            s@ == clamp_slice(row@, self.offset.x as int, self.offset.x + self.size.width),
    {
        let rl = row.len();
        let start = self.offset.x;
        let end = start.saturating_add(self.size.width as usize);
        let s = row.render(start, end);
        proof {
            assert(row@.len() == rl <= usize::MAX);
            assert(s@ =~= clamp_slice(row@, self.offset.x as int, self.offset.x + self.size.width));
        }
        s
    }

    /// The centred welcome banner for this terminal's width.
    pub fn draw_welcome_message(&self) -> (s: String)
        ensures
            s@ == welcome_line(self.size.width as int),
    {
        let width = self.size.width as usize;
        let msg = crate::text::str_chars("Hacksaw -- version 0.1.0");
        let padding = if width > msg.len() {
            (width - msg.len()) / 2
        } else {
            0
        };
        let pad = if padding > 0 {
            padding - 1
        } else {
            0
        };
        let mut line: Vec<char> = Vec::new();
        line.push('~');
        let mut sp = crate::text::space_chars(pad);
        line.append(&mut sp);
        let mut m = msg;
        line.append(&mut m);
        proof {
            assert(line@ =~= seq!['~'] + spaces(pad as int) + "Hacksaw -- version 0.1.0"@);
        }
        line.truncate(width);
        proof {
            assert(line@ =~= welcome_line(self.size.width as int));
        }
        crate::text::chars_to_string(&line)
    }

    /// The text of every screen row, top to bottom, one string per row of
    /// the drawable area.
    pub fn draw_rows(&self) -> (v: Vec<String>)
        ensures
            v@.len() == self.size.height as int,
            forall|r: int|
                0 <= r < self.size.height as int ==> (#[trigger] v@[r])@ == screen_row_text(
                    self.document@,
                    self.offset,
                    self.size.width,
                    self.size.height,
                    r,
                ),
    {
        let height = self.size.height;
        let doc_len = self.document.len();
        let mut out: Vec<String> = Vec::new();
        let mut r: u16 = 0;
        while r < height
            invariant
                r <= height,
                height == self.size.height,
                doc_len == self.document@.len(),
                out@.len() == r as int,
                forall|k: int|
                    0 <= k < r as int ==> (#[trigger] out@[k])@ == screen_row_text(
                        self.document@,
                        self.offset,
                        self.size.width,
                        self.size.height,
                        k,
                    ),
            decreases height - r,
        {
            let idx = self.offset.y.saturating_add(r as usize);
            let line: String = match self.document.row(idx) {
                Some(row) => {
                    let s = self.draw_row(row);
                    proof {
                        assert(idx < self.document@.len());
                        assert(idx as int == self.offset.y + r as int);
                    }
                    s
                },
                None => {
                    if self.document.is_empty() && r == height / 3 {
                        self.draw_welcome_message()
                    } else {
                        let tilde = "~".to_owned();
                        proof {
                            reveal_strlit("~");
                            assert(tilde@ =~= seq!['~']);
                        }
                        tilde
                    }
                },
            };
            proof {
                assert(line@ == screen_row_text(
                    self.document@,
                    self.offset,
                    self.size.width,
                    self.size.height,
                    r as int,
                ));
            }
            out.push(line);
            r = r + 1;
        }
        out
    }

    /// The status bar line for the current file, buffer and cursor.
    pub fn draw_status_bar(&self) -> (s: String)
        ensures
            s@ == status_line_text(
                self.document.spec_filename(),
                self.document@.len() as int,
                self.cursor_position.y as int,
                self.size.width as int,
            ),
    {
        let width = self.size.width as usize;
        let mut line: Vec<char> = Vec::new();
        match self.document.filename() {
            Some(name) => {
                let mut nm = crate::text::str_chars(name.as_str());
                nm.truncate(20);
                line.append(&mut nm);
            },
            None => {
                let mut nm = crate::text::str_chars("[No Name]");
                line.append(&mut nm);
            },
        }
        let mut sep = crate::text::str_chars(" - ");
        line.append(&mut sep);
        let mut cnt = crate::text::decimal_chars(self.document.len());
        line.append(&mut cnt);
        let mut word = crate::text::str_chars(" lines");
        line.append(&mut word);
        proof {
            assert(line@ =~= (match self.document.spec_filename() {
                Some(n) => clamp_slice(n, 0, 20),
                None => "[No Name]"@,
            }) + " - "@ + dec_rep(self.document@.len()) + " lines"@);
        }
        let mut ind: Vec<char> = Vec::new();
        let shown = self.cursor_position.y.saturating_add(1);
        let mut d1 = crate::text::decimal_chars(shown);
        ind.append(&mut d1);
        let mut of = crate::text::str_chars(" of ");
        ind.append(&mut of);
        let mut d2 = crate::text::decimal_chars(self.document.len());
        ind.append(&mut d2);
        let total = line.len().saturating_add(ind.len());
        if width > total {
            let mut pad = crate::text::space_chars(width - total - 1);
            line.append(&mut pad);
        }
        line.push(' ');
        line.append(&mut ind);
        line.truncate(width);
        proof {
            assert(line@ =~= status_line_text(
                self.document.spec_filename(),
                self.document@.len() as int,
                self.cursor_position.y as int,
                self.size.width as int,
            ));
        }
        crate::text::chars_to_string(&line)
    }

    /// The message bar line: the status message truncated to the terminal
    /// width while it is unexpired at time `now`, blank afterwards.
    pub fn draw_message_bar(&self, now: u64) -> (s: String)
        ensures
            s@ == (if self.status_message.spec_visible(now) {
                clamp_slice(self.status_message.text@, 0, self.size.width as int)
            } else {
                Seq::<char>::empty()
            }),
    {
        if self.status_message.is_visible(now) {
            let mut t = crate::text::str_chars(self.status_message.text.as_str());
            t.truncate(self.size.width as usize);
            proof {
                assert(t@ =~= clamp_slice(self.status_message.text@, 0, self.size.width as int));
            }
            crate::text::chars_to_string(&t)
        } else {
            String::new()
        }
    }

    /// Where the terminal cursor is placed on screen: the buffer cursor
    /// relative to the viewport offset, saturating at the origin.
    pub fn screen_cursor(&self) -> (p: Position)
        ensures
            p.x as int == (if self.cursor_position.x >= self.offset.x {
                self.cursor_position.x - self.offset.x
            } else {
                0
            }),
            p.y as int == (if self.cursor_position.y >= self.offset.y {
                self.cursor_position.y - self.offset.y
            } else {
                0
            }),
    {
        Position {
            x: self.cursor_position.x.saturating_sub(self.offset.x),
            y: self.cursor_position.y.saturating_sub(self.offset.y),
        }
    }

    /// Records the outcome of a save the caller performed, as a fresh
    /// status message.
    pub fn report_save(&mut self, ok: bool, now: u64)
        ensures
            final(self).status_message.text@ == (if ok {
                "File saved successfully"@
            } else {
                "Error saving process"@
            }),
            final(self).status_message.time == now,
            final(self).mode == old(self).mode,
            final(self).document == old(self).document,
            final(self).cursor_position == old(self).cursor_position,
            final(self).offset == old(self).offset,
            final(self).size == old(self).size,
            final(self).prompt == old(self).prompt,
            final(self).prompt_input == old(self).prompt_input,
            old(self).wf() ==> final(self).wf(),
    {
        if ok {
            self.status_message = StatusMessage::from("File saved successfully".to_owned(), now);
        } else {
            self.status_message = StatusMessage::from("Error saving process".to_owned(), now);
        }
    }
}

/// However a cursor within bounds is moved, its row index still does not
/// exceed the number of rows; chained move by move, the bound holds
/// after any sequence of movement operations.
pub proof fn lemma_move_keeps_row_bound(cursor: Position, key: Key, doc: Seq<Seq<char>>)
    requires
        cursor.y <= doc.len(),
    ensures
        moved_cursor(cursor, key, doc).y <= doc.len(),
{
}

/// Left at column zero: a no-op on the first line, a wrap to the end of
/// the previous line anywhere else.
pub proof fn lemma_left_at_column_zero(cursor: Position, doc: Seq<Seq<char>>)
    requires
        cursor.x == 0,
    ensures
        cursor.y == 0 ==> moved_cursor(cursor, Key::Left, doc) == cursor,
        0 < cursor.y <= doc.len() ==> moved_cursor(cursor, Key::Left, doc) == (Position {
            x: doc[cursor.y - 1].len() as usize,
            y: (cursor.y - 1) as usize,
        }),
{
}

/// Backspace at the start of a non-first line — stepping left and
/// deleting there, as the key dispatch does — joins that line's text
/// onto the end of the previous one, keeps all other lines, and shrinks
/// the buffer by exactly one row.
pub proof fn lemma_backspace_at_line_start(cursor: Position, doc: Seq<Seq<char>>)
    requires
        cursor.x == 0,
        0 < cursor.y < doc.len(),
        doc[cursor.y - 1].len() <= usize::MAX,
    ensures
        ({
            let cur1 = moved_cursor(cursor, Key::Left, doc);
            let doc1 = doc_deleted(doc, cur1.x as int, cur1.y as int);
            &&& doc1.len() == doc.len() - 1
            &&& doc1[cursor.y - 1] == doc[cursor.y - 1] + doc[cursor.y as int]
            &&& (forall|i: int| 0 <= i < cursor.y - 1 ==> doc1[i] == doc[i])
            &&& (forall|i: int| cursor.y <= i < doc1.len() ==> doc1[i] == doc[i + 1])
        }),
{
}

/// The one-line report a fatal error is shown as, right before the
/// session terminates: the error text behind a fixed prefix.
pub fn die(error: &str) -> (r: String)
    ensures
        r@ == "error: "@ + error@,
{
    let mut r = "error: ".to_owned();
    r.append(error);
    r
}

} // verus!

