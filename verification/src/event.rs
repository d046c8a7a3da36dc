//! What reaches the session: terminal input and debugger notifications, as
//! plain values.

use vstd::prelude::*;

verus! {

/// The key of a key press, as far as the session tells keys apart.
#[derive(Clone, Copy, Debug, PartialEq, Eq, Structural)]
pub enum Key {
    /// A character key.
    Char(char),
    /// Any other key.
    Other,
}

/// What the pointer did, as far as the session tells it apart.
#[derive(Clone, Copy, Debug, PartialEq, Eq, Structural)]
pub enum MouseKind {
    /// The wheel turned towards the end of the content.
    ScrollDown,
    /// The wheel turned towards the start of the content.
    ScrollUp,
    /// The left button went down.
    LeftDown,
    /// Anything else: another button, a release, a drag, a move.
    Other,
}

/// An event of the terminal.
#[derive(Clone, Copy, Debug, PartialEq, Eq, Structural)]
pub enum Event {
    /// The terminal gained the focus.
    FocusGained,
    /// The terminal lost the focus.
    FocusLost,
    /// A key was pressed, with or without the control key held.
    Key { key: Key, control: bool },
    /// The pointer did something at a cell of the screen.
    Mouse { kind: MouseKind, column: u16, row: u16 },
    /// Text was pasted.
    Paste,
    /// The terminal was resized.
    Resize { columns: u16, rows: u16 },
}

} // verus!
