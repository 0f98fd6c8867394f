//! The accounts page: a display-only sub-page of the homepage.

use vstd::prelude::*;

use crate::keys::Key;
use crate::nav::NavSignal;

verus! {

/// The accounts screen. It holds no state of its own.
pub struct AccountMain {}

/// Where each key leads from the accounts page: Esc returns to the
/// homepage, everything else stays.
pub open spec fn account_step(key: Key) -> NavSignal {
    match key {
        Key::Esc => NavSignal::Back,
        _ => NavSignal::Stay,
    }
}

impl AccountMain {
    pub fn new() -> (p: AccountMain) {
        AccountMain {  }
    }

    /// Routes one key, as [`account_step`] describes.
    pub fn handle_input(&self, key: Key) -> (n: NavSignal)
        ensures
            n == account_step(key),
    {
        match key {
            Key::Esc => NavSignal::Back,
            _ => NavSignal::Stay,
        }
    }
}

} // verus!
