//! The editing core of a terminal line editor: grapheme-indexed lines, the
//! document that owns them, the key-to-mode dispatcher, and the cursor and
//! scroll arithmetic of an editing session.

pub mod document;
pub mod editor;
pub mod graphemes;
pub mod lines;
pub mod modes;
pub mod row;
pub mod text;
pub mod viewport;

pub use document::Document;
pub use editor::Position;
pub use modes::Modes;
pub use row::Row;
