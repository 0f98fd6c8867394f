//! Terminal client logic for a personal-finance tracker: pages, input
//! routing, and the navigation state machine, with the HTTP submission
//! protocol modelled over plain values.

pub mod account_main;
pub mod app;
pub mod category_main;
pub mod components;
pub mod cover;
pub mod cycle;
pub mod homepage;
pub mod http;
pub mod keys;
pub mod login;
pub mod nav;
pub mod report;
pub mod report_main;
pub mod signup;
pub mod text;

use vstd::prelude::*;

verus! {

/// Whether an HTTP status code counts as a success (the 2xx range).
pub open spec fn spec_status_success(status: u16) -> bool {
    200 <= status < 300
}

/// Exec mirror of [`spec_status_success`].
pub fn status_is_success(status: u16) -> (r: bool)
    ensures
        r == spec_status_success(status),
{
    200 <= status && status < 300
}

} // verus!
