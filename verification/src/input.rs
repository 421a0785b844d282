//! The discrete input events that the widgets consume.
//!
//! The surrounding program translates whatever its input source yields into
//! these plain values; the widgets' logic is written against them alone.

use vstd::prelude::*;

verus! {

/// A key that was pressed.
#[derive(Debug, Clone, Copy, PartialEq, Eq)]
pub enum KeyCode {
    Left,
    Right,
    Up,
    Down,
    Enter,
    Backspace,
    Delete,
    Tab,
    Esc,
    Char(char),
    Other,
}

/// One discrete input event: a key press, a pasted block of text, or
/// anything else (for example a viewport resize), which the widgets ignore.
#[derive(Debug, Clone)]
pub enum InputEvent {
    Key(KeyCode),
    Paste(String),
    Other,
}

} // verus!
