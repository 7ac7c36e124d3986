use vstd::prelude::*;

verus! {

/// A key press, as the dispatch loop sees it.
#[derive(Debug, Clone, Copy, PartialEq, Eq, Hash, Structural)]
pub enum Key {
    Enter,
    Tab,
    Backspace,
    Esc,
    Left,
    Right,
    Up,
    Down,
    Ins,
    Delete,
    Home,
    End,
    PageUp,
    PageDown,
    F(u8),
    Char(char),
    Ctrl(char),
    Alt(char),
    Unknown,
}

/// What the input task hands to the dispatch loop.
#[derive(Debug, Clone, Copy, PartialEq, Eq, Structural)]
pub enum InputEvent {
    Input(Key),
    Tick,
}

} // verus!
