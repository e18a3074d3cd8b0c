//! A split-screen terminal editor core: an upper print pane that scrolls
//! asynchronous output and a lower multi-line edit pane, with a scrollback
//! history of printed bytes.
//!
//! The library holds the editing and rendering state machine. Terminal
//! output is queued as [`TermOp`] values for the embedding program to run.
pub mod error;
pub mod graphemes;
pub mod history;
pub mod term;
pub mod editor;
pub mod render;
pub mod scrollback;
pub mod moves;
pub mod edit;
pub mod keys;

pub use error::Error;
pub use term::{ClearKind, EditorEvent, InputEvent, KeyCode, TermOp, WriteHistoryType};
pub use editor::Editor;
