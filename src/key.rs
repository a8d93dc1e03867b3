use vstd::prelude::*;

verus! {

/// One key chord, as decoded by the terminal input layer.
#[derive(Clone, Copy, Debug, PartialEq, Eq, Structural)]
pub enum Key {
    Enter,
    Tab,
    BackTab,
    Backspace,
    Esc,
    Left,
    Right,
    Up,
    Down,
    ShiftLeft,
    ShiftRight,
    ShiftUp,
    ShiftDown,
    Ins,
    Delete,
    Home,
    End,
    PageUp,
    PageDown,
    /// A function key, by its number.
    F(u8),
    Char(char),
    Ctrl(char),
    Alt(char),
    Unknown,
}

} // verus!
