//! The client side of the HTTP protocol, modelled over plain values: the
//! records the backend serves, the requests a page can ask for, and the
//! replies handed back once a request has been performed.
//!
//! Nothing here touches the network. The event loop performs a request and
//! feeds the reply to the state machine; the decisions about both live in
//! the verified pages.

use vstd::prelude::*;

use crate::nav::NavSignal;

verus! {

/// One category record, as the category-summary endpoint serves it.
///
/// The budget is kept as the decimal numeral the backend sent; the client
/// only displays it and never computes with it.
pub struct Category {
    pub email: String,
    pub nickname: String,
    pub category_type: String,
    pub budget: String,
    pub budget_freq: String,
}

/// The mathematical model of a [`Category`].
pub struct CategoryView {
    pub email: Seq<char>,
    pub nickname: Seq<char>,
    pub category_type: Seq<char>,
    pub budget: Seq<char>,
    pub budget_freq: Seq<char>,
}

impl View for Category {
    type V = CategoryView;

    open spec fn view(&self) -> CategoryView {
        CategoryView {
            email: self.email@,
            nickname: self.nickname@,
            category_type: self.category_type@,
            budget: self.budget@,
            budget_freq: self.budget_freq@,
        }
    }
}

impl DeepView for Category {
    type V = CategoryView;

    open spec fn deep_view(&self) -> CategoryView {
        self.view()
    }
}

/// The payload of a category-creation request.
pub struct NewCategory {
    pub email: String,
    pub nickname: String,
    pub category_type: String,
    pub budget: String,
    pub budget_freq: String,
}

impl View for NewCategory {
    type V = CategoryView;

    open spec fn view(&self) -> CategoryView {
        CategoryView {
            email: self.email@,
            nickname: self.nickname@,
            category_type: self.category_type@,
            budget: self.budget@,
            budget_freq: self.budget_freq@,
        }
    }
}

/// One per-category block of the report-details endpoint.
///
/// Budget and total are kept as the decimal numerals the backend sent; the
/// client only displays them.
pub struct CategorySummary {
    pub nickname: String,
    pub budget: String,
    pub budget_freq: String,
    pub overbudget: bool,
    pub total: String,
    pub cat_trans: Vec<String>,
}

/// The mathematical model of a [`CategorySummary`].
pub struct CategorySummaryView {
    pub nickname: Seq<char>,
    pub budget: Seq<char>,
    pub budget_freq: Seq<char>,
    pub overbudget: bool,
    pub total: Seq<char>,
    pub cat_trans: Seq<Seq<char>>,
}

impl View for CategorySummary {
    type V = CategorySummaryView;

    open spec fn view(&self) -> CategorySummaryView {
        CategorySummaryView {
            nickname: self.nickname@,
            budget: self.budget@,
            budget_freq: self.budget_freq@,
            overbudget: self.overbudget,
            total: self.total@,
            cat_trans: self.cat_trans.deep_view(),
        }
    }
}

impl DeepView for CategorySummary {
    type V = CategorySummaryView;

    open spec fn deep_view(&self) -> CategorySummaryView {
        self.view()
    }
}

/// One HTTP request the client can issue.
pub enum HttpRequest {
    /// POST the signup form to the account endpoint.
    SignupUser { username: String, email: String, password: String },
    /// POST the login form to the shared account endpoint, which carries a
    /// sentinel username marking it as a login attempt.
    LoginUser { email: String, password: String },
    /// GET the report overview for the logged-in user.
    FetchOverview { email: String },
    /// GET the category list for the logged-in user.
    FetchCategories { email: String },
    /// POST a new category.
    CreateCategory { category: NewCategory },
    /// DELETE one category by nickname.
    DeleteCategory { email: String, nickname: String },
    /// GET the per-category report details for the logged-in user.
    FetchSummaries { email: String },
}

/// The mathematical model of an [`HttpRequest`].
pub enum ReqView {
    SignupUser { username: Seq<char>, email: Seq<char>, password: Seq<char> },
    LoginUser { email: Seq<char>, password: Seq<char> },
    FetchOverview { email: Seq<char> },
    FetchCategories { email: Seq<char> },
    CreateCategory { category: CategoryView },
    DeleteCategory { email: Seq<char>, nickname: Seq<char> },
    FetchSummaries { email: Seq<char> },
}

impl View for HttpRequest {
    type V = ReqView;

    open spec fn view(&self) -> ReqView {
        match self {
            HttpRequest::SignupUser { username, email, password } => ReqView::SignupUser {
                username: username@,
                email: email@,
                password: password@,
            },
            HttpRequest::LoginUser { email, password } => ReqView::LoginUser {
                email: email@,
                password: password@,
            },
            HttpRequest::FetchOverview { email } => ReqView::FetchOverview { email: email@ },
            HttpRequest::FetchCategories { email } => ReqView::FetchCategories { email: email@ },
            HttpRequest::CreateCategory { category } => ReqView::CreateCategory {
                category: category@,
            },
            HttpRequest::DeleteCategory { email, nickname } => ReqView::DeleteCategory {
                email: email@,
                nickname: nickname@,
            },
            HttpRequest::FetchSummaries { email } => ReqView::FetchSummaries { email: email@ },
        }
    }
}

/// The reply to a request whose body the client reads as plain text, or the
/// cause of its transport failure.
pub enum TextReply {
    /// The server answered with this status and body.
    Response { status: u16, body: String },
    /// No response: the transport failed with this cause.
    Failed { cause: String },
}

/// The mathematical model of a [`TextReply`].
pub enum TextReplyView {
    Response { status: u16, body: Seq<char> },
    Failed { cause: Seq<char> },
}

impl View for TextReply {
    type V = TextReplyView;

    open spec fn view(&self) -> TextReplyView {
        match self {
            TextReply::Response { status, body } => TextReplyView::Response {
                status: *status,
                body: body@,
            },
            TextReply::Failed { cause } => TextReplyView::Failed { cause: cause@ },
        }
    }
}

/// The reply to a category-list fetch: the status, and the records when the
/// body was a well-formed category list.
pub enum CategoriesReply {
    Response { status: u16, records: Option<Vec<Category>> },
    Failed { cause: String },
}

/// The mathematical model of a [`CategoriesReply`].
pub enum CategoriesReplyView {
    Response { status: u16, records: Option<Seq<CategoryView>> },
    Failed { cause: Seq<char> },
}

impl View for CategoriesReply {
    type V = CategoriesReplyView;

    open spec fn view(&self) -> CategoriesReplyView {
        match self {
            CategoriesReply::Response { status, records } => CategoriesReplyView::Response {
                status: *status,
                records: records.deep_view(),
            },
            CategoriesReply::Failed { cause } => CategoriesReplyView::Failed { cause: cause@ },
        }
    }
}

/// The reply to a report-details fetch.
pub enum SummariesReply {
    Response { status: u16, records: Option<Vec<CategorySummary>> },
    Failed { cause: String },
}

/// The mathematical model of a [`SummariesReply`].
pub enum SummariesReplyView {
    Response { status: u16, records: Option<Seq<CategorySummaryView>> },
    Failed { cause: Seq<char> },
}

impl View for SummariesReply {
    type V = SummariesReplyView;

    open spec fn view(&self) -> SummariesReplyView {
        match self {
            SummariesReply::Response { status, records } => SummariesReplyView::Response {
                status: *status,
                records: records.deep_view(),
            },
            SummariesReply::Failed { cause } => SummariesReplyView::Failed { cause: cause@ },
        }
    }
}

/// What one input-handling call asks of the event loop: either navigate, or
/// perform a request and feed the reply back.
pub enum PageAction {
    Nav(NavSignal),
    Request(HttpRequest),
}

/// The mathematical model of a [`PageAction`].
pub enum ActionView {
    Nav(NavSignal),
    Request(ReqView),
}

impl View for PageAction {
    type V = ActionView;

    open spec fn view(&self) -> ActionView {
        match self {
            PageAction::Nav(n) => ActionView::Nav(*n),
            PageAction::Request(r) => ActionView::Request(r@),
        }
    }
}

} // verus!
