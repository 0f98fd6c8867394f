//! The key events that pages react to, modelled as plain values.
//!
//! The event source delivers raw terminal events; only the keys below carry
//! meaning for the pages, and every other key is mapped to [`Key::Other`],
//! which every handler treats as a no-op.

use vstd::prelude::*;

verus! {

/// One key event, after the terminal backend has decoded it.
#[derive(Clone, Copy, PartialEq, Eq, Structural, Debug)]
pub enum Key {
    Esc,
    Tab,
    BackTab,
    Enter,
    Backspace,
    Up,
    Down,
    Char(char),
    Other,
}

/// Whether a character may enter an input field's buffer.
///
/// Input fields never hold control characters: the C0 range (below space),
/// DEL, and the C1 range are rejected; everything else counts as printable.
pub open spec fn spec_char_printable(c: char) -> bool {
    c as u32 >= 32 && !(127 <= c as u32 <= 159)
}

/// Exec mirror of [`spec_char_printable`].
pub fn char_printable(c: char) -> (r: bool)
    ensures
        r == spec_char_printable(c),
{
    let code = c as u32;
    code >= 32 && !(127 <= code && code <= 159)
}

} // verus!
