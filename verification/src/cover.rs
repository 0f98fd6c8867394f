//! The cover page: a stateless router from the opening screen.

use vstd::prelude::*;

use crate::keys::Key;
use crate::nav::{NavSignal, State};

verus! {

/// The opening screen. It holds no state of its own.
pub struct CoverPage {}

/// Where each key leads from the cover: Esc quits, `1` opens the signup
/// form, `2` opens the login form, everything else stays.
pub open spec fn cover_step(key: Key) -> NavSignal {
    match key {
        Key::Esc => NavSignal::Quit,
        Key::Char(c) => if c == '1' {
            NavSignal::Advance(State::Signup)
        } else if c == '2' {
            NavSignal::Advance(State::Login)
        } else {
            NavSignal::Stay
        },
        _ => NavSignal::Stay,
    }
}

impl CoverPage {
    pub fn new() -> (p: CoverPage) {
        CoverPage {  }
    }

    /// Routes one key, as [`cover_step`] describes.
    pub fn handle_input(&self, key: Key) -> (n: NavSignal)
        ensures
            n == cover_step(key),
    {
        match key {
            Key::Esc => NavSignal::Quit,
            Key::Char(c) => if c == '1' {
                NavSignal::Advance(State::Signup)
            } else if c == '2' {
                NavSignal::Advance(State::Login)
            } else {
                NavSignal::Stay
            },
            _ => NavSignal::Stay,
        }
    }
}

} // verus!
