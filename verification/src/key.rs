//! The keys a terminal can deliver, as plain values.  The reader thread
//! translates the backend's raw key events into this type before they
//! reach the session.

use vstd::prelude::*;

verus! {

/// One keystroke.  `Other` stands for any key the dashboard never reacts
/// to.
#[derive(Clone, Copy, PartialEq, Eq, Structural, Debug)]
pub enum Key {
    Char(char),
    Ctrl(char),
    Alt(char),
    Up,
    Down,
    Left,
    Right,
    Home,
    End,
    PageUp,
    PageDown,
    Backspace,
    Delete,
    Insert,
    Esc,
    BackTab,
    F(u8),
    Other,
}

/// Numeric value of a decimal digit character; 0 for every other
/// character.
pub open spec fn digit_value_spec(c: char) -> int {
    if '0' as u32 <= c as u32 && c as u32 <= '9' as u32 {
        c as u32 - '0' as u32
    } else {
        0
    }
}

/// Numeric value of a decimal digit character; 0 for every other
/// character.
pub fn digit_value(c: char) -> (r: u32)
    ensures
        r as int == digit_value_spec(c),
        r <= 9,
{
    let v: u32 = c as u32;
    if '0' as u32 <= v && v <= '9' as u32 {
        v - '0' as u32
    } else {
        0
    }
}

} // verus!
