//! The values that pass between the editor and its terminal: input events
//! in, queued terminal operations out.
use vstd::prelude::*;

verus! {

/// What a terminal clear operation erases.
#[derive(Debug, Clone, Copy, PartialEq, Eq)]
pub enum ClearKind {
    All,
    FromCursorDown,
    CurrentLine,
}

/// One terminal operation, queued by the editor for the terminal to run.
#[derive(Debug, PartialEq, Eq)]
pub enum TermOp {
    /// Move the cursor to a column and a row.
    MoveTo(u16, u16),
    /// Move the cursor to a column of its row.
    MoveToColumn(u16),
    /// Erase part of the screen.
    Clear(ClearKind),
    /// Print text at the cursor.
    Print(String),
    /// Write raw output bytes at the cursor.
    Write(Vec<u8>),
    /// Scroll the whole screen up by a number of rows.
    ScrollUp(u16),
}

/// A key, as the editor tells keys apart.
#[derive(Debug, Clone, Copy, PartialEq, Eq)]
pub enum KeyCode {
    Char(char),
    Backspace,
    Delete,
    Enter,
    Left,
    Right,
    Up,
    Down,
    Home,
    End,
    PageUp,
    PageDown,
    Tab,
    Esc,
    Other,
}

/// A terminal input event: a key press, with or without Control alone
/// held, or a new terminal size.
#[derive(Debug, Clone, Copy, PartialEq, Eq)]
pub enum InputEvent {
    Key { code: KeyCode, ctrl: bool },
    Resize(u16, u16),
    Other,
}

/// The high-level events that the editor hands to its embedder.
#[derive(Debug, Clone, Copy, PartialEq, Eq)]
pub enum EditorEvent {
    CtrlC,
    CtrlD,
    CtrlQ,
    CtrlN,
    CtrlS,
    CtrlX,
}

/// The ways of moving through the scrollback history.
#[derive(Debug, Clone, Copy, PartialEq, Eq)]
pub enum WriteHistoryType {
    PageUp,
    PageDown,
    Quit,
}

} // verus!
