//! Navigation: the set of pages and the signal a page hands back after one
//! key event, which drives the application's transition table.

use vstd::prelude::*;

verus! {

/// Which page is current.
#[derive(Clone, Copy, PartialEq, Eq, Structural, Debug)]
pub enum State {
    Cover,
    Signup,
    Login,
    Homepage,
    Account,
    Category,
    Report,
}

/// The outcome of one input-handling call, as the state machine sees it.
#[derive(Clone, Copy, PartialEq, Eq, Structural, Debug)]
pub enum NavSignal {
    /// Remain on the current page.
    Stay,
    /// Return one level (to Cover from Signup, to Homepage from a sub-page).
    Back,
    /// Move to the given page.
    Advance(State),
    /// End the program.
    Quit,
}

} // verus!
