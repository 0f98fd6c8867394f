//! The signup page: four input fields cycled by Tab, a local password
//! check, and the submission of the signup form.

use vstd::prelude::*;

use crate::components::{field_step, FieldView, InputField};
use crate::cycle::{cycle_next, cycle_prev, next_field, prev_field};
use crate::http::{ActionView, HttpRequest, PageAction, ReqView, TextReply, TextReplyView};
use crate::keys::Key;
use crate::nav::{NavSignal, State};

verus! {

/// The signup form.
pub struct SignupPage {
    pub username: InputField,
    pub email: InputField,
    pub password: InputField,
    pub confirm_password: InputField,
    pub active_field: usize,
    pub response_message: String,
}

/// The mathematical model of a [`SignupPage`].
pub struct SignupView {
    pub username: FieldView,
    pub email: FieldView,
    pub password: FieldView,
    pub confirm_password: FieldView,
    pub active_field: int,
    pub response_message: Seq<char>,
}

impl View for SignupPage {
    type V = SignupView;

    open spec fn view(&self) -> SignupView {
        SignupView {
            username: self.username@,
            email: self.email@,
            password: self.password@,
            confirm_password: self.confirm_password@,
            active_field: self.active_field as int,
            response_message: self.response_message@,
        }
    }
}

/// A fresh signup form: empty fields, the first one active, no message.
pub open spec fn signup_init() -> SignupView {
    SignupView {
        username: FieldView { label: "Username"@, content: Seq::<char>::empty(), masked: false },
        email: FieldView { label: "Email"@, content: Seq::<char>::empty(), masked: false },
        password: FieldView { label: "Password"@, content: Seq::<char>::empty(), masked: true },
        confirm_password: FieldView {
            label: "Confirm Password"@,
            content: Seq::<char>::empty(),
            masked: true,
        },
        active_field: 0,
        response_message: Seq::<char>::empty(),
    }
}

/// Submitting the form: when the two passwords differ the mismatch is
/// reported locally and nothing is sent; otherwise the three fields are
/// posted to the account endpoint.
pub open spec fn signup_submit_step(p: SignupView) -> (SignupView, ActionView) {
    if p.password.content != p.confirm_password.content {
        (
            SignupView { response_message: "Passwords do not match"@, ..p },
            ActionView::Nav(NavSignal::Stay),
        )
    } else {
        (
            p,
            ActionView::Request(
                ReqView::SignupUser {
                    username: p.username.content,
                    email: p.email.content,
                    password: p.password.content,
                },
            ),
        )
    }
}

/// One key on the signup page: Esc backs out to the cover, Tab and BackTab
/// cycle the four fields, Enter submits, and any other key goes verbatim to
/// the active field.
pub open spec fn signup_step(p: SignupView, key: Key) -> (SignupView, ActionView) {
    match key {
        Key::Esc => (p, ActionView::Nav(NavSignal::Back)),
        Key::Tab => (
            SignupView { active_field: cycle_next(p.active_field, 4), ..p },
            ActionView::Nav(NavSignal::Stay),
        ),
        Key::BackTab => (
            SignupView { active_field: cycle_prev(p.active_field, 4), ..p },
            ActionView::Nav(NavSignal::Stay),
        ),
        Key::Enter => signup_submit_step(p),
        _ => {
            let p2 = if p.active_field == 0 {
                SignupView { username: field_step(p.username, key), ..p }
            } else if p.active_field == 1 {
                SignupView { email: field_step(p.email, key), ..p }
            } else if p.active_field == 2 {
                SignupView { password: field_step(p.password, key), ..p }
            } else {
                SignupView { confirm_password: field_step(p.confirm_password, key), ..p }
            };
            (p2, ActionView::Nav(NavSignal::Stay))
        },
    }
}

/// The reply to a signup request: 201 reports success and moves on to the
/// login page; any other status surfaces the server's message verbatim; a
/// transport failure surfaces its cause.
pub open spec fn signup_reply_step(p: SignupView, r: TextReplyView) -> (SignupView, NavSignal) {
    match r {
        TextReplyView::Response { status, body } => if status == 201 {
            (
                SignupView { response_message: "Signup successful"@, ..p },
                NavSignal::Advance(State::Login),
            )
        } else {
            (SignupView { response_message: body, ..p }, NavSignal::Stay)
        },
        TextReplyView::Failed { cause } => (
            SignupView { response_message: "Request failed: "@ + cause, ..p },
            NavSignal::Stay,
        ),
    }
}

/// The signup page after `k` Tab keys.
pub open spec fn signup_after_tabs(p: SignupView, k: nat) -> SignupView
    decreases k,
{
    if k == 0 {
        p
    } else {
        signup_step(signup_after_tabs(p, (k - 1) as nat), Key::Tab).0
    }
}

/// Tab cycling on the signup page has period four: four Tabs return the
/// page, active field included, to exactly what it was.
pub proof fn lemma_signup_tab_period(p: SignupView)
    requires
        0 <= p.active_field < 4,
    ensures
        signup_after_tabs(p, 4) == p,
{
    assert(signup_after_tabs(p, 0) == p);
    let p1 = signup_step(p, Key::Tab).0;
    let p2 = signup_step(p1, Key::Tab).0;
    let p3 = signup_step(p2, Key::Tab).0;
    let p4 = signup_step(p3, Key::Tab).0;
    assert(signup_after_tabs(p, 1) == p1);
    assert(signup_after_tabs(p, 2) == p2);
    assert(signup_after_tabs(p, 3) == p3);
    assert(signup_after_tabs(p, 4) == p4);
}

/// On the signup page, BackTab is the exact inverse of Tab: either order of
/// the two keys returns the page to exactly what it was.
pub proof fn lemma_signup_backtab_inverse(p: SignupView)
    requires
        0 <= p.active_field < 4,
    ensures
        signup_step(signup_step(p, Key::Tab).0, Key::BackTab).0 == p,
        signup_step(signup_step(p, Key::BackTab).0, Key::Tab).0 == p,
{
}

impl SignupPage {
    /// Four fields, and buffers of printable characters only.
    pub open spec fn wf(&self) -> bool {
        &&& self.active_field < 4
        &&& self.username.wf()
        &&& self.email.wf()
        &&& self.password.wf()
        &&& self.confirm_password.wf()
    }

    /// A fresh signup form.
    pub fn new() -> (p: SignupPage)
        ensures
            p@ == signup_init(),
            p.wf(),
    {
        SignupPage {
            username: InputField::new("Username", false),
            email: InputField::new("Email", false),
            password: InputField::new("Password", true),
            confirm_password: InputField::new("Confirm Password", true),
            active_field: 0,
            response_message: String::new(),
        }
    }

    /// Submits the form, as [`signup_submit_step`] describes.
    pub fn submit(&mut self) -> (a: PageAction)
        requires
            old(self).wf(),
        ensures
            final(self).wf(),
            final(self)@ == signup_submit_step(old(self)@).0,
            a@ == signup_submit_step(old(self)@).1,
    {
        if !(self.password.content == self.confirm_password.content) {
            self.response_message = String::from_str("Passwords do not match");
            PageAction::Nav(NavSignal::Stay)
        } else {
            PageAction::Request(
                HttpRequest::SignupUser {
                    username: self.username.content.clone(),
                    email: self.email.content.clone(),
                    password: self.password.content.clone(),
                },
            )
        }
    }

    /// Handles one key, as [`signup_step`] describes.
    pub fn handle_input(&mut self, key: Key) -> (a: PageAction)
        requires
            old(self).wf(),
        ensures
            final(self).wf(),
            final(self)@ == signup_step(old(self)@, key).0,
            a@ == signup_step(old(self)@, key).1,
    {
        match key {
            Key::Esc => PageAction::Nav(NavSignal::Back),
            Key::Tab => {
                self.active_field = next_field(self.active_field, 4);
                PageAction::Nav(NavSignal::Stay)
            },
            Key::BackTab => {
                self.active_field = prev_field(self.active_field, 4);
                PageAction::Nav(NavSignal::Stay)
            },
            Key::Enter => self.submit(),
            _ => {
                if self.active_field == 0 {
                    self.username.handle_input(key);
                } else if self.active_field == 1 {
                    self.email.handle_input(key);
                } else if self.active_field == 2 {
                    self.password.handle_input(key);
                } else {
                    self.confirm_password.handle_input(key);
                }
                PageAction::Nav(NavSignal::Stay)
            },
        }
    }

    /// Applies the reply to a signup request, as [`signup_reply_step`]
    /// describes.
    pub fn apply_reply(&mut self, reply: TextReply) -> (n: NavSignal)
        requires
            old(self).wf(),
        ensures
            final(self).wf(),
            final(self)@ == signup_reply_step(old(self)@, reply@).0,
            n == signup_reply_step(old(self)@, reply@).1,
    {
        match reply {
            TextReply::Response { status, body } => {
                if status == 201 {
                    self.response_message = String::from_str("Signup successful");
                    NavSignal::Advance(State::Login)
                } else {
                    self.response_message = body;
                    NavSignal::Stay
                }
            },
            TextReply::Failed { cause } => {
                let mut m = String::from_str("Request failed: ");
                m.append(cause.as_str());
                self.response_message = m;
                NavSignal::Stay
            },
        }
    }
}

} // verus!
