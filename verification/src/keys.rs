//! The abstract key alphabet the engine consumes. Decoding real terminal
//! events into this alphabet is the caller's concern.

use vstd::prelude::*;

verus! {

/// One decoded key press.
#[derive(Debug, Clone, Copy, PartialEq, Eq)]
pub enum Key {
    Char(char),
    Enter,
    Esc,
    Up,
    Down,
    Left,
    Right,
    Ctrl(char),
    Backspace,
    Delete,
    Tab,
    BackTab,
    Home,
    End,
    Unknown,
}

} // verus!
