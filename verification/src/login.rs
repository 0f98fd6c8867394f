//! The login page: two input fields, the login request, and the reading of
//! its reply.
//!
//! The backend shares one account endpoint between signup and login; a
//! login attempt is marked by a sentinel username, and a successful login
//! is recognised by a marker substring in the response body. The username
//! is the first whitespace-delimited token after that marker.

use vstd::prelude::*;

use crate::components::{field_step, FieldView, InputField};
use crate::cycle::{cycle_next, cycle_prev, next_field, prev_field};
use crate::http::{ActionView, HttpRequest, PageAction, ReqView, TextReply, TextReplyView};
use crate::keys::Key;
use crate::nav::NavSignal;
use crate::spec_status_success;
use crate::status_is_success;
use crate::text::{
    after_first, contains_seq, dec_digits, find_first, first_match_at, first_token,
    lemma_first_match_unique, spec_first_token, u64_to_string,
};

verus! {

/// The substring of a response body that marks a successful login.
pub open spec fn login_marker() -> Seq<char> {
    "Login successful"@
}

/// The login form.
pub struct LoginPage {
    pub email: InputField,
    pub password: InputField,
    pub active_field: usize,
    pub response_message: String,
    pub report_overview: String,
}

/// The mathematical model of a [`LoginPage`].
pub struct LoginView {
    pub email: FieldView,
    pub password: FieldView,
    pub active_field: int,
    pub response_message: Seq<char>,
    pub report_overview: Seq<char>,
}

impl View for LoginPage {
    type V = LoginView;

    open spec fn view(&self) -> LoginView {
        LoginView {
            email: self.email@,
            password: self.password@,
            active_field: self.active_field as int,
            response_message: self.response_message@,
            report_overview: self.report_overview@,
        }
    }
}

/// What the reply to a login request leads to: either the page stays, with
/// a message, or the report overview is fetched next for the extracted
/// username.
pub enum LoginOutcome {
    Stay,
    FetchOverview { username: String },
}

/// The mathematical model of a [`LoginOutcome`].
pub enum LoginOutcomeView {
    Stay,
    FetchOverview { username: Seq<char> },
}

impl View for LoginOutcome {
    type V = LoginOutcomeView;

    open spec fn view(&self) -> LoginOutcomeView {
        match self {
            LoginOutcome::Stay => LoginOutcomeView::Stay,
            LoginOutcome::FetchOverview { username } => LoginOutcomeView::FetchOverview {
                username: username@,
            },
        }
    }
}

/// A fresh login form: empty fields, the first one active, no message.
pub open spec fn login_init() -> LoginView {
    LoginView {
        email: FieldView { label: "Email"@, content: Seq::<char>::empty(), masked: false },
        password: FieldView { label: "Password"@, content: Seq::<char>::empty(), masked: true },
        active_field: 0,
        response_message: Seq::<char>::empty(),
        report_overview: "To be filled in"@,
    }
}

/// One key on the login page: Esc quits, Tab and BackTab cycle the two
/// fields, Enter submits, and any other key goes verbatim to the active
/// field.
pub open spec fn login_step(p: LoginView, key: Key) -> (LoginView, ActionView) {
    match key {
        Key::Esc => (p, ActionView::Nav(NavSignal::Quit)),
        Key::Tab => (
            LoginView { active_field: cycle_next(p.active_field, 2), ..p },
            ActionView::Nav(NavSignal::Stay),
        ),
        Key::BackTab => (
            LoginView { active_field: cycle_prev(p.active_field, 2), ..p },
            ActionView::Nav(NavSignal::Stay),
        ),
        Key::Enter => (
            p,
            ActionView::Request(
                ReqView::LoginUser { email: p.email.content, password: p.password.content },
            ),
        ),
        _ => {
            let p2 = if p.active_field == 0 {
                LoginView { email: field_step(p.email, key), ..p }
            } else {
                LoginView { password: field_step(p.password, key), ..p }
            };
            (p2, ActionView::Nav(NavSignal::Stay))
        },
    }
}

/// The username a successful login body carries: the first
/// whitespace-delimited token after the first occurrence of the marker.
pub open spec fn spec_username_of(body: Seq<char>) -> Option<Seq<char>> {
    spec_first_token(after_first(body, login_marker()))
}

/// The reply to a login request: a failing status or transport failure is
/// surfaced and the page stays; a success body without the marker is an
/// unexpected format; with the marker, the username is extracted and the
/// report overview is fetched next, unless no token follows the marker.
pub open spec fn login_reply_step(p: LoginView, r: TextReplyView) -> (LoginView, LoginOutcomeView) {
    match r {
        TextReplyView::Failed { cause } => (
            LoginView { response_message: "Request failed: "@ + cause, ..p },
            LoginOutcomeView::Stay,
        ),
        TextReplyView::Response { status, body } => if !spec_status_success(status) {
            (
                LoginView {
                    response_message: "Login failed: "@ + dec_digits(status as nat)
                        + "\nMessage: "@ + body,
                    ..p
                },
                LoginOutcomeView::Stay,
            )
        } else if !contains_seq(body, login_marker()) {
            (
                LoginView {
                    response_message: "Login successful, but response format is unexpected."@,
                    ..p
                },
                LoginOutcomeView::Stay,
            )
        } else {
            match spec_username_of(body) {
                Option::None => (
                    LoginView {
                        response_message: "Login successful, but failed to extract username."@,
                        ..p
                    },
                    LoginOutcomeView::Stay,
                ),
                Option::Some(u) => (
                    LoginView {
                        response_message: "Login successful! Redirecting to homepage..."@,
                        ..p
                    },
                    LoginOutcomeView::FetchOverview { username: u },
                ),
            }
        },
    }
}

/// The login page after `k` Tab keys.
pub open spec fn login_after_tabs(p: LoginView, k: nat) -> LoginView
    decreases k,
{
    if k == 0 {
        p
    } else {
        login_step(login_after_tabs(p, (k - 1) as nat), Key::Tab).0
    }
}

/// Tab cycling on the login page has period two: two Tabs return the page,
/// active field included, to exactly what it was.
pub proof fn lemma_login_tab_period(p: LoginView)
    requires
        0 <= p.active_field < 2,
    ensures
        login_after_tabs(p, 2) == p,
{
    assert(login_after_tabs(p, 0) == p);
    let p1 = login_step(p, Key::Tab).0;
    let p2 = login_step(p1, Key::Tab).0;
    assert(login_after_tabs(p, 1) == p1);
    assert(login_after_tabs(p, 2) == p2);
}

/// On the login page, BackTab is the exact inverse of Tab: either order of
/// the two keys returns the page to exactly what it was.
pub proof fn lemma_login_backtab_inverse(p: LoginView)
    requires
        0 <= p.active_field < 2,
    ensures
        login_step(login_step(p, Key::Tab).0, Key::BackTab).0 == p,
        login_step(login_step(p, Key::BackTab).0, Key::Tab).0 == p,
{
}

impl LoginPage {
    /// Two fields, and buffers of printable characters only.
    pub open spec fn wf(&self) -> bool {
        &&& self.active_field < 2
        &&& self.email.wf()
        &&& self.password.wf()
    }

    /// A fresh login form.
    pub fn new() -> (p: LoginPage)
        ensures
            p@ == login_init(),
            p.wf(),
    {
        LoginPage {
            email: InputField::new("Email", false),
            password: InputField::new("Password", true),
            active_field: 0,
            response_message: String::new(),
            report_overview: String::from_str("To be filled in"),
        }
    }

    /// Builds the login request for the current field contents.
    pub fn submit(&self) -> (a: PageAction)
        ensures
            a@ == ActionView::Request(
                ReqView::LoginUser {
                    email: self@.email.content,
                    password: self@.password.content,
                },
            ),
    {
        PageAction::Request(
            HttpRequest::LoginUser {
                email: self.email.content.clone(),
                password: self.password.content.clone(),
            },
        )
    }

    /// Handles one key, as [`login_step`] describes.
    pub fn handle_input(&mut self, key: Key) -> (a: PageAction)
        requires
            old(self).wf(),
        ensures
            final(self).wf(),
            final(self)@ == login_step(old(self)@, key).0,
            a@ == login_step(old(self)@, key).1,
    {
        match key {
            Key::Esc => PageAction::Nav(NavSignal::Quit),
            Key::Tab => {
                self.active_field = next_field(self.active_field, 2);
                PageAction::Nav(NavSignal::Stay)
            },
            Key::BackTab => {
                self.active_field = prev_field(self.active_field, 2);
                PageAction::Nav(NavSignal::Stay)
            },
            Key::Enter => self.submit(),
            _ => {
                if self.active_field == 0 {
                    self.email.handle_input(key);
                } else {
                    self.password.handle_input(key);
                }
                PageAction::Nav(NavSignal::Stay)
            },
        }
    }

    /// Applies the reply to a login request, as [`login_reply_step`]
    /// describes.
    pub fn apply_reply(&mut self, reply: TextReply) -> (out: LoginOutcome)
        requires
            old(self).wf(),
        ensures
            final(self).wf(),
            final(self)@ == login_reply_step(old(self)@, reply@).0,
            out@ == login_reply_step(old(self)@, reply@).1,
    {
        match reply {
            TextReply::Failed { cause } => {
                let mut m = String::from_str("Request failed: ");
                m.append(cause.as_str());
                self.response_message = m;
                LoginOutcome::Stay
            },
            TextReply::Response { status, body } => {
                if !status_is_success(status) {
                    let mut m = String::from_str("Login failed: ");
                    let digits = u64_to_string(status as u64);
                    m.append(digits.as_str());
                    m.append("\nMessage: ");
                    m.append(body.as_str());
                    self.response_message = m;
                    LoginOutcome::Stay
                } else {
                    match find_first(body.as_str(), "Login successful") {
                        Option::None => {
                            self.response_message = String::from_str(
                                "Login successful, but response format is unexpected.",
                            );
                            LoginOutcome::Stay
                        },
                        Option::Some(i) => {
                            let blen = body.as_str().unicode_len();
                            let mlen = "Login successful".unicode_len();
                            let rest = body.as_str().substring_char(i + mlen, blen);
                            proof {
                                let i0 = choose|k: int|
                                    first_match_at(body@, login_marker(), k);
                                lemma_first_match_unique(
                                    body@,
                                    login_marker(),
                                    i as int,
                                    i0,
                                );
                                assert(rest@ =~= after_first(body@, login_marker()));
                            }
                            match first_token(rest) {
                                Option::None => {
                                    self.response_message = String::from_str(
                                        "Login successful, but failed to extract username.",
                                    );
                                    LoginOutcome::Stay
                                },
                                Option::Some(u) => {
                                    self.response_message = String::from_str(
                                        "Login successful! Redirecting to homepage...",
                                    );
                                    LoginOutcome::FetchOverview { username: u }
                                },
                            }
                        },
                    }
                }
            },
        }
    }
}

} // verus!
