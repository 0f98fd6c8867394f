//! The homepage: the payload built on a successful login, shown until the
//! user quits or opens one of the sub-pages.

use vstd::prelude::*;

use crate::keys::Key;
use crate::nav::{NavSignal, State};

verus! {

/// The homepage payload: who is logged in and their report overview.
pub struct Homepage {
    pub username: String,
    pub email: String,
    pub report_overview: String,
}

/// The mathematical model of a [`Homepage`].
pub struct HomepageView {
    pub username: Seq<char>,
    pub email: Seq<char>,
    pub report_overview: Seq<char>,
}

impl View for Homepage {
    type V = HomepageView;

    open spec fn view(&self) -> HomepageView {
        HomepageView {
            username: self.username@,
            email: self.email@,
            report_overview: self.report_overview@,
        }
    }
}

/// Where each key leads from the homepage: Esc quits, the digits open the
/// account, category and report sub-pages, everything else stays.
pub open spec fn homepage_step(key: Key) -> NavSignal {
    match key {
        Key::Esc => NavSignal::Quit,
        Key::Char(c) => if c == '1' {
            NavSignal::Advance(State::Account)
        } else if c == '2' {
            NavSignal::Advance(State::Category)
        } else if c == '3' {
            NavSignal::Advance(State::Report)
        } else {
            NavSignal::Stay
        },
        _ => NavSignal::Stay,
    }
}

impl Homepage {
    /// Builds the payload carried from a successful login.
    pub fn new(username: String, email: String, report_overview: String) -> (h: Homepage)
        ensures
            h@ == (HomepageView {
                username: username@,
                email: email@,
                report_overview: report_overview@,
            }),
    {
        Homepage { username, email, report_overview }
    }

    /// Routes one key, as [`homepage_step`] describes.
    pub fn handle_input(&self, key: Key) -> (n: NavSignal)
        ensures
            n == homepage_step(key),
    {
        match key {
            Key::Esc => NavSignal::Quit,
            Key::Char(c) => if c == '1' {
                NavSignal::Advance(State::Account)
            } else if c == '2' {
                NavSignal::Advance(State::Category)
            } else if c == '3' {
                NavSignal::Advance(State::Report)
            } else {
                NavSignal::Stay
            },
            _ => NavSignal::Stay,
        }
    }
}

} // verus!
