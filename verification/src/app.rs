//! The application: one state value that owns the current page, routes each
//! key event to it, and applies the transition table to the signal the page
//! hands back.
//!
//! A page that needs the network returns the request instead of performing
//! it. The event loop performs the request and feeds the reply back through
//! one of the `apply_*_reply` entry points, which may in turn ask for a
//! follow-up request (the overview fetch after a login, the re-fetch after
//! a create or delete). The `pending` field records which request is in
//! flight so the reply is routed to the page that asked for it.

use vstd::prelude::*;

use crate::account_main::{account_step, AccountMain};
use crate::category_main::{
    cat_create_reply_step, cat_delete_reply_step, cat_fetch_step, cat_init, cat_step, CategoryMain,
    CategoryMainView,
};
use crate::cover::{cover_step, CoverPage};
use crate::homepage::{homepage_step, Homepage, HomepageView};
use crate::http::{
    ActionView, CategoriesReply, CategoriesReplyView, HttpRequest, PageAction, ReqView,
    SummariesReply, SummariesReplyView, TextReply, TextReplyView,
};
use crate::keys::Key;
use crate::login::{
    login_init, login_marker, login_reply_step, login_step, spec_username_of, LoginOutcome,
    LoginOutcomeView, LoginPage, LoginView,
};
use crate::nav::{NavSignal, State};
use crate::report::{overview_from_reply, overview_step};
use crate::report_main::{report_fetch_step, report_init, report_step, ReportMain, ReportMainView};
use crate::signup::{signup_init, signup_reply_step, signup_step, SignupPage, SignupView};
use crate::spec_status_success;
use crate::text::contains_seq;

verus! {

/// What the event loop must do after one call into the application: carry
/// on (redraw and wait for the next key), quit, or perform this request and
/// feed the reply back.
pub enum Command {
    Continue,
    Quit,
    Http(HttpRequest),
}

/// The mathematical model of a [`Command`].
pub enum CommandView {
    Continue,
    Quit,
    Http(ReqView),
}

impl View for Command {
    type V = CommandView;

    open spec fn view(&self) -> CommandView {
        match self {
            Command::Continue => CommandView::Continue,
            Command::Quit => CommandView::Quit,
            Command::Http(r) => CommandView::Http(r@),
        }
    }
}

/// Which request is in flight, and for the overview fetch, the username the
/// login body carried.
pub enum Pending {
    SignupReq,
    LoginReq,
    OverviewReq { username: String },
    CategoriesReq,
    CreateReq,
    DeleteReq,
    SummariesReq,
}

/// The mathematical model of a [`Pending`].
pub enum PendingView {
    SignupReq,
    LoginReq,
    OverviewReq { username: Seq<char> },
    CategoriesReq,
    CreateReq,
    DeleteReq,
    SummariesReq,
}

impl View for Pending {
    type V = PendingView;

    open spec fn view(&self) -> PendingView {
        match self {
            Pending::SignupReq => PendingView::SignupReq,
            Pending::LoginReq => PendingView::LoginReq,
            Pending::OverviewReq { username } => PendingView::OverviewReq {
                username: username@,
            },
            Pending::CategoriesReq => PendingView::CategoriesReq,
            Pending::CreateReq => PendingView::CreateReq,
            Pending::DeleteReq => PendingView::DeleteReq,
            Pending::SummariesReq => PendingView::SummariesReq,
        }
    }
}

/// The application state: the current page, the pages' contents, and the
/// request in flight, if any.
pub struct App {
    pub state: State,
    pub cover_page: CoverPage,
    pub signup_page: SignupPage,
    pub login_page: LoginPage,
    pub homepage: Option<Homepage>,
    pub account_page: AccountMain,
    pub category_page: Option<CategoryMain>,
    pub report_page: Option<ReportMain>,
    pub pending: Option<Pending>,
}

/// The mathematical model of an [`App`].
pub struct AppView {
    pub state: State,
    pub signup: SignupView,
    pub login: LoginView,
    pub homepage: Option<HomepageView>,
    pub category: Option<CategoryMainView>,
    pub report: Option<ReportMainView>,
    pub pending: Option<PendingView>,
}

impl View for App {
    type V = AppView;

    open spec fn view(&self) -> AppView {
        AppView {
            state: self.state,
            signup: self.signup_page@,
            login: self.login_page@,
            homepage: match self.homepage {
                Option::Some(h) => Option::Some(h@),
                Option::None => Option::None,
            },
            category: match self.category_page {
                Option::Some(c) => Option::Some(c@),
                Option::None => Option::None,
            },
            report: match self.report_page {
                Option::Some(r) => Option::Some(r@),
                Option::None => Option::None,
            },
            pending: match self.pending {
                Option::Some(p) => Option::Some(p@),
                Option::None => Option::None,
            },
        }
    }
}

/// A fresh application: on the cover, no homepage payload, nothing pending.
pub open spec fn app_init() -> AppView {
    AppView {
        state: State::Cover,
        signup: signup_init(),
        login: login_init(),
        homepage: Option::None,
        category: Option::None,
        report: Option::None,
        pending: Option::None,
    }
}

/// Backing out one level: Signup returns to the cover and the form is
/// discarded; the sub-pages return to the homepage and their fetched
/// records are discarded. From anywhere else, Back changes nothing.
pub open spec fn app_back(a: AppView) -> (AppView, CommandView) {
    match a.state {
        State::Signup => (
            AppView { state: State::Cover, signup: signup_init(), ..a },
            CommandView::Continue,
        ),
        State::Account => (AppView { state: State::Homepage, ..a }, CommandView::Continue),
        State::Category => (
            AppView { state: State::Homepage, category: Option::None, ..a },
            CommandView::Continue,
        ),
        State::Report => (
            AppView { state: State::Homepage, report: Option::None, ..a },
            CommandView::Continue,
        ),
        _ => (a, CommandView::Continue),
    }
}

/// Entering a page: forms are entered fresh; the homepage is entered only
/// when its payload exists; the category and report pages are built for the
/// logged-in user and their fetch is issued at once. An advance whose
/// precondition fails (no payload) changes nothing.
pub open spec fn app_enter(a: AppView, t: State) -> (AppView, CommandView) {
    match t {
        State::Cover => (AppView { state: State::Cover, ..a }, CommandView::Continue),
        State::Signup => (
            AppView { state: State::Signup, signup: signup_init(), ..a },
            CommandView::Continue,
        ),
        State::Login => (
            AppView { state: State::Login, login: login_init(), ..a },
            CommandView::Continue,
        ),
        State::Homepage => if a.homepage is Some {
            (AppView { state: State::Homepage, ..a }, CommandView::Continue)
        } else {
            (a, CommandView::Continue)
        },
        State::Account => if a.homepage is Some {
            (AppView { state: State::Account, ..a }, CommandView::Continue)
        } else {
            (a, CommandView::Continue)
        },
        State::Category => match a.homepage {
            Option::Some(h) => (
                AppView {
                    state: State::Category,
                    category: Option::Some(cat_init(h.email)),
                    pending: Option::Some(PendingView::CategoriesReq),
                    ..a
                },
                CommandView::Http(ReqView::FetchCategories { email: h.email }),
            ),
            Option::None => (a, CommandView::Continue),
        },
        State::Report => match a.homepage {
            Option::Some(h) => (
                AppView {
                    state: State::Report,
                    report: Option::Some(report_init(h.email)),
                    pending: Option::Some(PendingView::SummariesReq),
                    ..a
                },
                CommandView::Http(ReqView::FetchSummaries { email: h.email }),
            ),
            Option::None => (a, CommandView::Continue),
        },
    }
}

/// The transition table over one navigation signal.
pub open spec fn app_nav(a: AppView, n: NavSignal) -> (AppView, CommandView) {
    match n {
        NavSignal::Stay => (a, CommandView::Continue),
        NavSignal::Quit => (a, CommandView::Quit),
        NavSignal::Back => app_back(a),
        NavSignal::Advance(t) => app_enter(a, t),
    }
}

/// One key event: the active page handles it; a navigation signal goes
/// through the transition table, a request is recorded as pending and
/// handed out.
pub open spec fn app_step(a: AppView, key: Key) -> (AppView, CommandView) {
    match a.state {
        State::Cover => app_nav(a, cover_step(key)),
        State::Signup => {
            let step = signup_step(a.signup, key);
            let a2 = AppView { signup: step.0, ..a };
            match step.1 {
                ActionView::Nav(n) => app_nav(a2, n),
                ActionView::Request(r) => (
                    AppView { pending: Option::Some(PendingView::SignupReq), ..a2 },
                    CommandView::Http(r),
                ),
            }
        },
        State::Login => {
            let step = login_step(a.login, key);
            let a2 = AppView { login: step.0, ..a };
            match step.1 {
                ActionView::Nav(n) => app_nav(a2, n),
                ActionView::Request(r) => (
                    AppView { pending: Option::Some(PendingView::LoginReq), ..a2 },
                    CommandView::Http(r),
                ),
            }
        },
        State::Homepage => app_nav(a, homepage_step(key)),
        State::Account => app_nav(a, account_step(key)),
        State::Category => match a.category {
            Option::Some(c) => {
                let step = cat_step(c, key);
                let a2 = AppView { category: Option::Some(step.0), ..a };
                match step.1 {
                    ActionView::Nav(n) => app_nav(a2, n),
                    ActionView::Request(r) => (
                        AppView {
                            pending: Option::Some(
                                if r is CreateCategory {
                                    PendingView::CreateReq
                                } else {
                                    PendingView::DeleteReq
                                },
                            ),
                            ..a2
                        },
                        CommandView::Http(r),
                    ),
                }
            },
            Option::None => (a, CommandView::Continue),
        },
        State::Report => app_nav(a, report_step(key)),
    }
}

/// The reply to the pending text request: routed to the page that asked for
/// it; a login success asks for the overview next, and the overview reply
/// builds the homepage payload and enters the homepage; a created or
/// deleted category asks for a re-fetch. A reply that nothing asked for
/// only clears `pending`.
pub open spec fn app_apply_text(a: AppView, r: TextReplyView) -> (AppView, CommandView) {
    match a.pending {
        Option::Some(PendingView::SignupReq) => {
            let step = signup_reply_step(a.signup, r);
            app_nav(AppView { signup: step.0, pending: Option::None, ..a }, step.1)
        },
        Option::Some(PendingView::LoginReq) => {
            let step = login_reply_step(a.login, r);
            match step.1 {
                LoginOutcomeView::Stay => (
                    AppView { login: step.0, pending: Option::None, ..a },
                    CommandView::Continue,
                ),
                LoginOutcomeView::FetchOverview { username } => (
                    AppView {
                        login: step.0,
                        pending: Option::Some(PendingView::OverviewReq { username }),
                        ..a
                    },
                    CommandView::Http(ReqView::FetchOverview { email: a.login.email.content }),
                ),
            }
        },
        Option::Some(PendingView::OverviewReq { username }) => {
            let text = overview_step(r);
            (
                AppView {
                    login: LoginView { report_overview: text, ..a.login },
                    homepage: Option::Some(
                        HomepageView {
                            username,
                            email: a.login.email.content,
                            report_overview: text,
                        },
                    ),
                    state: State::Homepage,
                    pending: Option::None,
                    ..a
                },
                CommandView::Continue,
            )
        },
        Option::Some(PendingView::CreateReq) => match a.category {
            Option::Some(c) => {
                let step = cat_create_reply_step(c, r);
                if step.1 {
                    (
                        AppView {
                            category: Option::Some(step.0),
                            pending: Option::Some(PendingView::CategoriesReq),
                            ..a
                        },
                        CommandView::Http(ReqView::FetchCategories { email: step.0.email }),
                    )
                } else {
                    (
                        AppView { category: Option::Some(step.0), pending: Option::None, ..a },
                        CommandView::Continue,
                    )
                }
            },
            Option::None => (AppView { pending: Option::None, ..a }, CommandView::Continue),
        },
        Option::Some(PendingView::DeleteReq) => match a.category {
            Option::Some(c) => {
                let step = cat_delete_reply_step(c, r);
                if step.1 {
                    (
                        AppView {
                            category: Option::Some(step.0),
                            pending: Option::Some(PendingView::CategoriesReq),
                            ..a
                        },
                        CommandView::Http(ReqView::FetchCategories { email: step.0.email }),
                    )
                } else {
                    (
                        AppView { category: Option::Some(step.0), pending: Option::None, ..a },
                        CommandView::Continue,
                    )
                }
            },
            Option::None => (AppView { pending: Option::None, ..a }, CommandView::Continue),
        },
        _ => (AppView { pending: Option::None, ..a }, CommandView::Continue),
    }
}

/// The reply to the pending category-list fetch.
pub open spec fn app_apply_categories(a: AppView, r: CategoriesReplyView) -> (
    AppView,
    CommandView,
) {
    match a.pending {
        Option::Some(PendingView::CategoriesReq) => match a.category {
            Option::Some(c) => (
                AppView {
                    category: Option::Some(cat_fetch_step(c, r)),
                    pending: Option::None,
                    ..a
                },
                CommandView::Continue,
            ),
            Option::None => (AppView { pending: Option::None, ..a }, CommandView::Continue),
        },
        _ => (AppView { pending: Option::None, ..a }, CommandView::Continue),
    }
}

/// The reply to the pending report-details fetch.
pub open spec fn app_apply_summaries(a: AppView, r: SummariesReplyView) -> (AppView, CommandView) {
    match a.pending {
        Option::Some(PendingView::SummariesReq) => match a.report {
            Option::Some(p) => (
                AppView {
                    report: Option::Some(report_fetch_step(p, r)),
                    pending: Option::None,
                    ..a
                },
                CommandView::Continue,
            ),
            Option::None => (AppView { pending: Option::None, ..a }, CommandView::Continue),
        },
        _ => (AppView { pending: Option::None, ..a }, CommandView::Continue),
    }
}

impl App {
    /// The pages are well formed; the homepage payload exists whenever the
    /// homepage or a sub-page is current; the sub-pages exist while
    /// current; and a pending request belongs to the current page.
    pub open spec fn wf(&self) -> bool {
        &&& self.signup_page.wf()
        &&& self.login_page.wf()
        &&& (self.category_page matches Option::Some(c) ==> c.wf())
        &&& (self.state == State::Homepage || self.state == State::Account || self.state
            == State::Category || self.state == State::Report ==> self.homepage is Some)
        &&& (self.state == State::Category ==> self.category_page is Some)
        &&& (self.state == State::Report ==> self.report_page is Some)
        &&& match self.pending {
            Option::Some(Pending::SignupReq) => self.state == State::Signup,
            Option::Some(Pending::LoginReq) => self.state == State::Login,
            Option::Some(Pending::OverviewReq { .. }) => self.state == State::Login,
            Option::Some(Pending::CategoriesReq) => self.state == State::Category,
            Option::Some(Pending::CreateReq) => self.state == State::Category,
            Option::Some(Pending::DeleteReq) => self.state == State::Category,
            Option::Some(Pending::SummariesReq) => self.state == State::Report,
            Option::None => true,
        }
    }

    /// A fresh application on the cover page.
    pub fn new() -> (app: App)
        ensures
            app@ == app_init(),
            app.wf(),
            app.pending is None,
    {
        App {
            state: State::Cover,
            cover_page: CoverPage::new(),
            signup_page: SignupPage::new(),
            login_page: LoginPage::new(),
            homepage: Option::None,
            account_page: AccountMain::new(),
            category_page: Option::None,
            report_page: Option::None,
            pending: Option::None,
        }
    }

    /// Applies one navigation signal, as [`app_nav`] describes.
    fn apply_nav(&mut self, n: NavSignal) -> (c: Command)
        requires
            old(self).wf(),
            old(self).pending is None,
        ensures
            final(self).wf(),
            final(self)@ == app_nav(old(self)@, n).0,
            c@ == app_nav(old(self)@, n).1,
    {
        match n {
            NavSignal::Stay => Command::Continue,
            NavSignal::Quit => Command::Quit,
            NavSignal::Back => {
                match self.state {
                    State::Signup => {
                        self.state = State::Cover;
                        self.signup_page = SignupPage::new();
                        Command::Continue
                    },
                    State::Account => {
                        self.state = State::Homepage;
                        Command::Continue
                    },
                    State::Category => {
                        self.state = State::Homepage;
                        self.category_page = Option::None;
                        Command::Continue
                    },
                    State::Report => {
                        self.state = State::Homepage;
                        self.report_page = Option::None;
                        Command::Continue
                    },
                    _ => Command::Continue,
                }
            },
            NavSignal::Advance(t) => self.enter_state(t),
        }
    }

    /// Enters a page, as [`app_enter`] describes.
    fn enter_state(&mut self, t: State) -> (c: Command)
        requires
            old(self).wf(),
            old(self).pending is None,
        ensures
            final(self).wf(),
            final(self)@ == app_enter(old(self)@, t).0,
            c@ == app_enter(old(self)@, t).1,
    {
        match t {
            State::Cover => {
                self.state = State::Cover;
                Command::Continue
            },
            State::Signup => {
                self.state = State::Signup;
                self.signup_page = SignupPage::new();
                Command::Continue
            },
            State::Login => {
                self.state = State::Login;
                self.login_page = LoginPage::new();
                Command::Continue
            },
            State::Homepage => {
                if self.homepage.is_some() {
                    self.state = State::Homepage;
                }
                Command::Continue
            },
            State::Account => {
                if self.homepage.is_some() {
                    self.state = State::Account;
                }
                Command::Continue
            },
            State::Category => {
                match &self.homepage {
                    Option::Some(h) => {
                        let page = CategoryMain::new(h.email.clone());
                        let req = page.initialize();
                        self.category_page = Option::Some(page);
                        self.state = State::Category;
                        self.pending = Option::Some(Pending::CategoriesReq);
                        Command::Http(req)
                    },
                    Option::None => Command::Continue,
                }
            },
            State::Report => {
                match &self.homepage {
                    Option::Some(h) => {
                        let page = ReportMain::new(h.email.clone());
                        let req = page.initialize();
                        self.report_page = Option::Some(page);
                        self.state = State::Report;
                        self.pending = Option::Some(Pending::SummariesReq);
                        Command::Http(req)
                    },
                    Option::None => Command::Continue,
                }
            },
        }
    }

    /// Routes one key event to the current page and applies the outcome, as
    /// [`app_step`] describes.
    pub fn handle_key(&mut self, key: Key) -> (c: Command)
        requires
            old(self).wf(),
            old(self).pending is None,
        ensures
            final(self).wf(),
            final(self)@ == app_step(old(self)@, key).0,
            c@ == app_step(old(self)@, key).1,
    {
        match self.state {
            State::Cover => {
                let n = self.cover_page.handle_input(key);
                self.apply_nav(n)
            },
            State::Signup => {
                let a = self.signup_page.handle_input(key);
                match a {
                    PageAction::Nav(n) => self.apply_nav(n),
                    PageAction::Request(r) => {
                        self.pending = Option::Some(Pending::SignupReq);
                        Command::Http(r)
                    },
                }
            },
            State::Login => {
                let a = self.login_page.handle_input(key);
                match a {
                    PageAction::Nav(n) => self.apply_nav(n),
                    PageAction::Request(r) => {
                        self.pending = Option::Some(Pending::LoginReq);
                        Command::Http(r)
                    },
                }
            },
            State::Homepage => {
                let n = match &self.homepage {
                    Option::Some(h) => h.handle_input(key),
                    Option::None => NavSignal::Stay,
                };
                proof {
                    assert(self.homepage is Some);
                }
                self.apply_nav(n)
            },
            State::Account => {
                let n = self.account_page.handle_input(key);
                self.apply_nav(n)
            },
            State::Category => {
                let page = self.category_page.take();
                match page {
                    Option::Some(mut cpage) => {
                        let a = cpage.handle_input(key);
                        self.category_page = Option::Some(cpage);
                        match a {
                            PageAction::Nav(n) => self.apply_nav(n),
                            PageAction::Request(r) => {
                                let create = match &r {
                                    HttpRequest::CreateCategory { .. } => true,
                                    _ => false,
                                };
                                self.pending = Option::Some(
                                    if create {
                                        Pending::CreateReq
                                    } else {
                                        Pending::DeleteReq
                                    },
                                );
                                Command::Http(r)
                            },
                        }
                    },
                    Option::None => {
                        self.category_page = Option::None;
                        Command::Continue
                    },
                }
            },
            State::Report => {
                let n = match &self.report_page {
                    Option::Some(p) => p.handle_input(key),
                    Option::None => NavSignal::Stay,
                };
                proof {
                    assert(n == report_step(key));
                }
                self.apply_nav(n)
            },
        }
    }

    /// Applies the reply to the pending text request, as [`app_apply_text`]
    /// describes.
    pub fn apply_text_reply(&mut self, reply: TextReply) -> (c: Command)
        requires
            old(self).wf(),
        ensures
            final(self).wf(),
            final(self)@ == app_apply_text(old(self)@, reply@).0,
            c@ == app_apply_text(old(self)@, reply@).1,
    {
        let pending = self.pending.take();
        match pending {
            Option::Some(Pending::SignupReq) => {
                let n = self.signup_page.apply_reply(reply);
                self.apply_nav(n)
            },
            Option::Some(Pending::LoginReq) => {
                let out = self.login_page.apply_reply(reply);
                match out {
                    LoginOutcome::Stay => Command::Continue,
                    LoginOutcome::FetchOverview { username } => {
                        self.pending = Option::Some(Pending::OverviewReq { username });
                        Command::Http(
                            HttpRequest::FetchOverview {
                                email: self.login_page.email.content.clone(),
                            },
                        )
                    },
                }
            },
            Option::Some(Pending::OverviewReq { username }) => {
                let text = overview_from_reply(reply);
                self.login_page.report_overview = text.clone();
                let email = self.login_page.email.content.clone();
                self.homepage = Option::Some(Homepage::new(username, email, text));
                self.state = State::Homepage;
                Command::Continue
            },
            Option::Some(Pending::CreateReq) => {
                let page = self.category_page.take();
                match page {
                    Option::Some(mut cpage) => {
                        let refetch = cpage.apply_create_reply(reply);
                        let cmd = if refetch {
                            let req = cpage.initialize();
                            self.pending = Option::Some(Pending::CategoriesReq);
                            Command::Http(req)
                        } else {
                            Command::Continue
                        };
                        self.category_page = Option::Some(cpage);
                        cmd
                    },
                    Option::None => {
                        self.category_page = Option::None;
                        Command::Continue
                    },
                }
            },
            Option::Some(Pending::DeleteReq) => {
                let page = self.category_page.take();
                match page {
                    Option::Some(mut cpage) => {
                        let refetch = cpage.apply_delete_reply(reply);
                        let cmd = if refetch {
                            let req = cpage.initialize();
                            self.pending = Option::Some(Pending::CategoriesReq);
                            Command::Http(req)
                        } else {
                            Command::Continue
                        };
                        self.category_page = Option::Some(cpage);
                        cmd
                    },
                    Option::None => {
                        self.category_page = Option::None;
                        Command::Continue
                    },
                }
            },
            _ => Command::Continue,
        }
    }

    /// Applies the reply to the pending category-list fetch, as
    /// [`app_apply_categories`] describes.
    pub fn apply_categories_reply(&mut self, reply: CategoriesReply) -> (c: Command)
        requires
            old(self).wf(),
        ensures
            final(self).wf(),
            final(self)@ == app_apply_categories(old(self)@, reply@).0,
            c@ == app_apply_categories(old(self)@, reply@).1,
    {
        let pending = self.pending.take();
        match pending {
            Option::Some(Pending::CategoriesReq) => {
                let page = self.category_page.take();
                match page {
                    Option::Some(mut cpage) => {
                        cpage.apply_fetch_reply(reply);
                        self.category_page = Option::Some(cpage);
                        Command::Continue
                    },
                    Option::None => {
                        self.category_page = Option::None;
                        Command::Continue
                    },
                }
            },
            _ => Command::Continue,
        }
    }

    /// Applies the reply to the pending report-details fetch, as
    /// [`app_apply_summaries`] describes.
    pub fn apply_summaries_reply(&mut self, reply: SummariesReply) -> (c: Command)
        requires
            old(self).wf(),
        ensures
            final(self).wf(),
            final(self)@ == app_apply_summaries(old(self)@, reply@).0,
            c@ == app_apply_summaries(old(self)@, reply@).1,
    {
        let pending = self.pending.take();
        match pending {
            Option::Some(Pending::SummariesReq) => {
                let page = self.report_page.take();
                match page {
                    Option::Some(mut rpage) => {
                        rpage.apply_fetch_reply(reply);
                        self.report_page = Option::Some(rpage);
                        Command::Continue
                    },
                    Option::None => {
                        self.report_page = Option::None;
                        Command::Continue
                    },
                }
            },
            _ => Command::Continue,
        }
    }
}

/// Submitting the signup form with mismatched passwords never issues a
/// network request: the application stays on the signup page, the form
/// contents are untouched, and only the message changes.
pub proof fn lemma_signup_mismatch_local(a: AppView)
    requires
        a.state == State::Signup,
        a.signup.password.content != a.signup.confirm_password.content,
    ensures
        app_step(a, Key::Enter).0.state == State::Signup,
        !(app_step(a, Key::Enter).1 is Http),
        app_step(a, Key::Enter).0.signup.username == a.signup.username,
        app_step(a, Key::Enter).0.signup.email == a.signup.email,
        app_step(a, Key::Enter).0.signup.password == a.signup.password,
        app_step(a, Key::Enter).0.signup.confirm_password == a.signup.confirm_password,
        app_step(a, Key::Enter).0.signup.response_message == "Passwords do not match"@,
        app_step(a, Key::Enter).0.pending == a.pending,
{
}

/// A successful login reply that carries the marker and a username asks for
/// the overview fetch, and the overview reply lands on the homepage with
/// exactly that username, the login email, and the fetched overview text.
pub proof fn lemma_login_success_homepage(
    a: AppView,
    status: u16,
    body: Seq<char>,
    u: Seq<char>,
    overview: TextReplyView,
)
    requires
        a.state == State::Login,
        a.pending == Option::Some(PendingView::LoginReq),
        spec_status_success(status),
        contains_seq(body, login_marker()),
        spec_username_of(body) == Option::Some(u),
    ensures
        ({
            let step1 = app_apply_text(a, TextReplyView::Response { status, body });
            &&& step1.1 == CommandView::Http(
                ReqView::FetchOverview { email: a.login.email.content },
            )
            &&& ({
                let step2 = app_apply_text(step1.0, overview);
                &&& step2.0.state == State::Homepage
                &&& step2.0.homepage == Option::Some(
                    HomepageView {
                        username: u,
                        email: a.login.email.content,
                        report_overview: overview_step(overview),
                    },
                )
                &&& step2.1 == CommandView::Continue
            })
        }),
{
}

} // verus!
