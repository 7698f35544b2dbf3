//! Input events, as the editor sees them.

use vstd::prelude::*;

verus! {

/// A key of the keyboard.
#[derive(Debug, Clone, Copy, PartialEq, Eq, Structural)]
pub enum Key {
    Backspace,
    Left,
    Right,
    Up,
    Down,
    Home,
    End,
    PageUp,
    PageDown,
    BackTab,
    Delete,
    Insert,
    /// A function key, by its number.
    F(u8),
    /// A character key. The Enter key is `Char('\n')`.
    Char(char),
    /// A character key pressed together with Alt.
    Alt(char),
    /// A character key pressed together with Ctrl.
    Ctrl(char),
    Null,
    Esc,
}

/// Something that the terminal reports.
#[derive(Debug, Clone, Copy, PartialEq, Eq, Structural)]
pub enum Event {
    /// A key was pressed.
    Key(Key),
    /// Anything else, such as a mouse action. The editor does not act on it.
    Other,
}

} // verus!
