//! A terminal text editor's session engine: the line buffer, cursor,
//! viewport and rendering arithmetic, with their invariants verified.

mod document;
mod editor;
mod row;
mod terminal;
mod text;

pub use document::Document;
pub use editor::{die, Editor, EditorAction, Key, Mode, Position, StatusMessage};
pub use row::Row;
pub use terminal::Size;
