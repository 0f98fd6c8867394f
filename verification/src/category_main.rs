//! The category page: the fetched category list with a highlighted
//! selection, and a create sub-mode with four input fields, local
//! validation, and the create and delete requests.

use vstd::prelude::*;

use crate::components::{field_step, FieldView, InputField};
use crate::cycle::{cycle_next, cycle_prev, next_field, prev_field};
use crate::http::{
    ActionView, CategoriesReply, CategoriesReplyView, Category, CategoryView, HttpRequest,
    NewCategory, PageAction, ReqView, TextReply, TextReplyView,
};
use crate::keys::Key;
use crate::nav::NavSignal;
use crate::text::{dec_digits, is_valid_decimal, spec_valid_decimal, u64_to_string};

verus! {

/// The category management page.
pub struct CategoryMain {
    pub categories: Vec<Category>,
    pub selected: Option<usize>,
    pub email: String,
    pub message: String,
    pub creating_category: bool,
    pub nickname: InputField,
    pub category_type: InputField,
    pub budget: InputField,
    pub budget_freq: InputField,
    pub active_field: usize,
}

/// The mathematical model of a [`CategoryMain`].
pub struct CategoryMainView {
    pub categories: Seq<CategoryView>,
    pub selected: Option<int>,
    pub email: Seq<char>,
    pub message: Seq<char>,
    pub creating_category: bool,
    pub nickname: FieldView,
    pub category_type: FieldView,
    pub budget: FieldView,
    pub budget_freq: FieldView,
    pub active_field: int,
}

impl View for CategoryMain {
    type V = CategoryMainView;

    open spec fn view(&self) -> CategoryMainView {
        CategoryMainView {
            categories: self.categories.deep_view(),
            selected: match self.selected {
                Option::Some(i) => Option::Some(i as int),
                Option::None => Option::None,
            },
            email: self.email@,
            message: self.message@,
            creating_category: self.creating_category,
            nickname: self.nickname@,
            category_type: self.category_type@,
            budget: self.budget@,
            budget_freq: self.budget_freq@,
            active_field: self.active_field as int,
        }
    }
}

/// An empty unmasked field with the given label.
pub open spec fn empty_field(label: Seq<char>) -> FieldView {
    FieldView { label, content: Seq::<char>::empty(), masked: false }
}

/// A fresh category page for the given user: no records yet, no selection,
/// the loading message, and an empty create form.
pub open spec fn cat_init(email: Seq<char>) -> CategoryMainView {
    CategoryMainView {
        categories: Seq::<CategoryView>::empty(),
        selected: Option::None,
        email,
        message: "Loading categories..."@,
        creating_category: false,
        nickname: empty_field("Nickname"@),
        category_type: empty_field("Category Type"@),
        budget: empty_field("Budget"@),
        budget_freq: empty_field("Budget Frequency (daily/weekly/monthly)"@),
        active_field: 0,
    }
}

/// The selection after the record list has been replaced: gone when the
/// list is empty, started at the first record when there was none, and
/// clamped to the last record when the list shrank past it.
pub open spec fn select_after_fetch(sel: Option<int>, len: nat) -> Option<int> {
    if len == 0 {
        Option::None
    } else {
        match sel {
            Option::None => Option::Some(0),
            Option::Some(i) => if i < len {
                Option::Some(i)
            } else {
                Option::Some(len - 1)
            },
        }
    }
}

/// Submitting the create form: all four fields must be filled and the
/// budget must be a decimal numeral, both checked locally; only then is the
/// new category posted.
pub open spec fn cat_submit_step(p: CategoryMainView) -> (CategoryMainView, ActionView) {
    if p.nickname.content.len() == 0 || p.category_type.content.len() == 0
        || p.budget.content.len() == 0 || p.budget_freq.content.len() == 0 {
        (
            CategoryMainView { message: "Please fill in all fields"@, ..p },
            ActionView::Nav(NavSignal::Stay),
        )
    } else if !spec_valid_decimal(p.budget.content) {
        (
            CategoryMainView { message: "Invalid budget value"@, ..p },
            ActionView::Nav(NavSignal::Stay),
        )
    } else {
        (
            p,
            ActionView::Request(
                ReqView::CreateCategory {
                    category: CategoryView {
                        email: p.email,
                        nickname: p.nickname.content,
                        category_type: p.category_type.content,
                        budget: p.budget.content,
                        budget_freq: p.budget_freq.content,
                    },
                },
            ),
        )
    }
}

/// One key in create mode: Tab and BackTab cycle the four fields, Enter
/// submits, and any other key goes verbatim to the active field.
pub open spec fn cat_create_step(p: CategoryMainView, key: Key) -> (
    CategoryMainView,
    ActionView,
) {
    match key {
        Key::Tab => (
            CategoryMainView { active_field: cycle_next(p.active_field, 4), ..p },
            ActionView::Nav(NavSignal::Stay),
        ),
        Key::BackTab => (
            CategoryMainView { active_field: cycle_prev(p.active_field, 4), ..p },
            ActionView::Nav(NavSignal::Stay),
        ),
        Key::Enter => cat_submit_step(p),
        _ => {
            let p2 = if p.active_field == 0 {
                CategoryMainView { nickname: field_step(p.nickname, key), ..p }
            } else if p.active_field == 1 {
                CategoryMainView { category_type: field_step(p.category_type, key), ..p }
            } else if p.active_field == 2 {
                CategoryMainView { budget: field_step(p.budget, key), ..p }
            } else {
                CategoryMainView { budget_freq: field_step(p.budget_freq, key), ..p }
            };
            (p2, ActionView::Nav(NavSignal::Stay))
        },
    }
}

/// One key in list mode: `n` opens the create form with cleared fields,
/// `d` asks to delete the highlighted record, Up and Down move the
/// selection with wraparound and are no-ops on an empty list.
pub open spec fn cat_list_step(p: CategoryMainView, key: Key) -> (CategoryMainView, ActionView) {
    match key {
        Key::Char(c) => if c == 'n' {
            (
                CategoryMainView {
                    creating_category: true,
                    nickname: FieldView { content: Seq::<char>::empty(), ..p.nickname },
                    category_type: FieldView { content: Seq::<char>::empty(), ..p.category_type },
                    budget: FieldView { content: Seq::<char>::empty(), ..p.budget },
                    budget_freq: FieldView { content: Seq::<char>::empty(), ..p.budget_freq },
                    active_field: 0,
                    ..p
                },
                ActionView::Nav(NavSignal::Stay),
            )
        } else if c == 'd' {
            match p.selected {
                Option::Some(i) => (
                    p,
                    ActionView::Request(
                        ReqView::DeleteCategory {
                            email: p.email,
                            nickname: p.categories[i].nickname,
                        },
                    ),
                ),
                Option::None => (p, ActionView::Nav(NavSignal::Stay)),
            }
        } else {
            (p, ActionView::Nav(NavSignal::Stay))
        },
        Key::Up => {
            let p2 = match p.selected {
                Option::Some(i) => CategoryMainView {
                    selected: Option::Some(cycle_prev(i, p.categories.len() as int)),
                    ..p
                },
                Option::None => p,
            };
            (p2, ActionView::Nav(NavSignal::Stay))
        },
        Key::Down => {
            let p2 = match p.selected {
                Option::Some(i) => CategoryMainView {
                    selected: Option::Some(cycle_next(i, p.categories.len() as int)),
                    ..p
                },
                Option::None => p,
            };
            (p2, ActionView::Nav(NavSignal::Stay))
        },
        _ => (p, ActionView::Nav(NavSignal::Stay)),
    }
}

/// One key on the category page: Esc leaves create mode, or backs out to
/// the homepage; other keys go to the create form or the list.
pub open spec fn cat_step(p: CategoryMainView, key: Key) -> (CategoryMainView, ActionView) {
    if key == Key::Esc {
        if p.creating_category {
            (
                CategoryMainView { creating_category: false, ..p },
                ActionView::Nav(NavSignal::Stay),
            )
        } else {
            (p, ActionView::Nav(NavSignal::Back))
        }
    } else if p.creating_category {
        cat_create_step(p, key)
    } else {
        cat_list_step(p, key)
    }
}

/// The reply to a category-list fetch: a 200 with a well-formed body
/// replaces the records and adjusts the selection; a 200 with a malformed
/// body, another status, or a transport failure only set the message.
pub open spec fn cat_fetch_step(p: CategoryMainView, r: CategoriesReplyView) -> CategoryMainView {
    match r {
        CategoriesReplyView::Response { status, records } => if status == 200 {
            match records {
                Option::Some(rs) => CategoryMainView {
                    categories: rs,
                    selected: select_after_fetch(p.selected, rs.len()),
                    message: "Loaded "@ + dec_digits(rs.len()) + " categories"@,
                    ..p
                },
                Option::None => CategoryMainView {
                    message: "Failed to parse category data"@,
                    ..p
                },
            }
        } else {
            CategoryMainView { message: "Failed to fetch categories"@, ..p }
        },
        CategoriesReplyView::Failed { cause } => CategoryMainView {
            message: "Error fetching categories: "@ + cause,
            ..p
        },
    }
}

/// The reply to a create request: 201 reports success, leaves create mode,
/// clears the form and asks for a re-fetch; 400 surfaces the server's
/// message verbatim; any other status or a transport failure sets a
/// failure message. The second component says whether to re-fetch.
pub open spec fn cat_create_reply_step(p: CategoryMainView, r: TextReplyView) -> (
    CategoryMainView,
    bool,
) {
    match r {
        TextReplyView::Response { status, body } => if status == 201 {
            (
                CategoryMainView {
                    message: "Category created successfully"@,
                    creating_category: false,
                    nickname: FieldView { content: Seq::<char>::empty(), ..p.nickname },
                    category_type: FieldView { content: Seq::<char>::empty(), ..p.category_type },
                    budget: FieldView { content: Seq::<char>::empty(), ..p.budget },
                    budget_freq: FieldView { content: Seq::<char>::empty(), ..p.budget_freq },
                    active_field: 0,
                    ..p
                },
                true,
            )
        } else if status == 400 {
            (CategoryMainView { message: body, ..p }, false)
        } else {
            (
                CategoryMainView { message: "Failed to create category: "@ + body, ..p },
                false,
            )
        },
        TextReplyView::Failed { cause } => (
            CategoryMainView { message: "Error creating category: "@ + cause, ..p },
            false,
        ),
    }
}

/// The reply to a delete request: 200 reports success and asks for a
/// re-fetch; anything else sets a failure message.
pub open spec fn cat_delete_reply_step(p: CategoryMainView, r: TextReplyView) -> (
    CategoryMainView,
    bool,
) {
    match r {
        TextReplyView::Response { status, body } => if status == 200 {
            (CategoryMainView { message: "Category deleted successfully"@, ..p }, true)
        } else {
            (
                CategoryMainView { message: "Failed to delete category: "@ + body, ..p },
                false,
            )
        },
        TextReplyView::Failed { cause } => (
            CategoryMainView { message: "Error deleting category: "@ + cause, ..p },
            false,
        ),
    }
}

/// The category page after `k` Tab keys.
pub open spec fn cat_after_tabs(p: CategoryMainView, k: nat) -> CategoryMainView
    decreases k,
{
    if k == 0 {
        p
    } else {
        cat_step(cat_after_tabs(p, (k - 1) as nat), Key::Tab).0
    }
}

/// Tab cycling in the create form has period four: four Tabs return the
/// page, active field included, to exactly what it was.
pub proof fn lemma_cat_tab_period(p: CategoryMainView)
    requires
        p.creating_category,
        0 <= p.active_field < 4,
    ensures
        cat_after_tabs(p, 4) == p,
{
    assert(cat_after_tabs(p, 0) == p);
    let p1 = cat_step(p, Key::Tab).0;
    let p2 = cat_step(p1, Key::Tab).0;
    let p3 = cat_step(p2, Key::Tab).0;
    let p4 = cat_step(p3, Key::Tab).0;
    assert(cat_after_tabs(p, 1) == p1);
    assert(cat_after_tabs(p, 2) == p2);
    assert(cat_after_tabs(p, 3) == p3);
    assert(cat_after_tabs(p, 4) == p4);
}

/// In the create form, BackTab is the exact inverse of Tab: either order of
/// the two keys returns the page to exactly what it was.
pub proof fn lemma_cat_backtab_inverse(p: CategoryMainView)
    requires
        p.creating_category,
        0 <= p.active_field < 4,
    ensures
        cat_step(cat_step(p, Key::Tab).0, Key::BackTab).0 == p,
        cat_step(cat_step(p, Key::BackTab).0, Key::Tab).0 == p,
{
}

/// A budget that is not a decimal numeral is rejected locally: with the
/// other fields filled, Enter in create mode issues no request, the page
/// reports the invalid value, and nothing else changes.
pub proof fn lemma_invalid_budget_local(p: CategoryMainView)
    requires
        p.creating_category,
        p.nickname.content.len() > 0,
        p.category_type.content.len() > 0,
        p.budget.content.len() > 0,
        p.budget_freq.content.len() > 0,
        !spec_valid_decimal(p.budget.content),
    ensures
        cat_step(p, Key::Enter).1 == ActionView::Nav(NavSignal::Stay),
        cat_step(p, Key::Enter).0 == (CategoryMainView { message: "Invalid budget value"@, ..p }),
{
}

/// Up and Down over an empty record list change nothing: the selection
/// stays absent and no request is issued.
pub proof fn lemma_empty_list_navigation(p: CategoryMainView, key: Key)
    requires
        !p.creating_category,
        p.selected is None,
        key == Key::Up || key == Key::Down,
    ensures
        cat_step(p, key).0 == p,
        cat_step(p, key).1 == ActionView::Nav(NavSignal::Stay),
{
}

impl CategoryMain {
    /// Four create-form fields with printable buffers, and a selection that
    /// exists exactly when the list is non-empty and stays within it.
    pub open spec fn wf(&self) -> bool {
        &&& self.active_field < 4
        &&& self.nickname.wf()
        &&& self.category_type.wf()
        &&& self.budget.wf()
        &&& self.budget_freq.wf()
        &&& (self.selected is Some <==> self.categories.len() > 0)
        &&& (self.selected matches Option::Some(i) ==> i < self.categories.len())
    }

    /// A fresh category page for the given user.
    pub fn new(email: String) -> (p: CategoryMain)
        ensures
            p@ == cat_init(email@),
            p.wf(),
    {
        let p = CategoryMain {
            categories: Vec::new(),
            selected: Option::None,
            email,
            message: String::from_str("Loading categories..."),
            creating_category: false,
            nickname: InputField::new("Nickname", false),
            category_type: InputField::new("Category Type", false),
            budget: InputField::new("Budget", false),
            budget_freq: InputField::new("Budget Frequency (daily/weekly/monthly)", false),
            active_field: 0,
        };
        proof {
            assert(p@.categories =~= Seq::<CategoryView>::empty());
        }
        p
    }

    /// The fetch that populates this page on entry.
    pub fn initialize(&self) -> (r: HttpRequest)
        ensures
            r@ == (ReqView::FetchCategories { email: self@.email }),
    {
        HttpRequest::FetchCategories { email: self.email.clone() }
    }

    /// Handles one key, as [`cat_step`] describes.
    pub fn handle_input(&mut self, key: Key) -> (a: PageAction)
        requires
            old(self).wf(),
        ensures
            final(self).wf(),
            final(self)@ == cat_step(old(self)@, key).0,
            a@ == cat_step(old(self)@, key).1,
    {
        if key == Key::Esc {
            if self.creating_category {
                self.creating_category = false;
                PageAction::Nav(NavSignal::Stay)
            } else {
                PageAction::Nav(NavSignal::Back)
            }
        } else if self.creating_category {
            self.handle_create_input(key)
        } else {
            self.handle_list_input(key)
        }
    }

    /// One key in create mode, as [`cat_create_step`] describes.
    fn handle_create_input(&mut self, key: Key) -> (a: PageAction)
        requires
            old(self).wf(),
        ensures
            final(self).wf(),
            final(self)@ == cat_create_step(old(self)@, key).0,
            a@ == cat_create_step(old(self)@, key).1,
    {
        match key {
            Key::Tab => {
                self.active_field = next_field(self.active_field, 4);
                PageAction::Nav(NavSignal::Stay)
            },
            Key::BackTab => {
                self.active_field = prev_field(self.active_field, 4);
                PageAction::Nav(NavSignal::Stay)
            },
            Key::Enter => self.submit_new_category(),
            _ => {
                if self.active_field == 0 {
                    self.nickname.handle_input(key);
                } else if self.active_field == 1 {
                    self.category_type.handle_input(key);
                } else if self.active_field == 2 {
                    self.budget.handle_input(key);
                } else {
                    self.budget_freq.handle_input(key);
                }
                PageAction::Nav(NavSignal::Stay)
            },
        }
    }

    /// Validates and submits the create form, as [`cat_submit_step`]
    /// describes.
    fn submit_new_category(&mut self) -> (a: PageAction)
        requires
            old(self).wf(),
        ensures
            final(self).wf(),
            final(self)@ == cat_submit_step(old(self)@).0,
            a@ == cat_submit_step(old(self)@).1,
    {
        if self.nickname.content.as_str().is_empty()
            || self.category_type.content.as_str().is_empty()
            || self.budget.content.as_str().is_empty()
            || self.budget_freq.content.as_str().is_empty() {
            self.message = String::from_str("Please fill in all fields");
            PageAction::Nav(NavSignal::Stay)
        } else if !is_valid_decimal(self.budget.content.as_str()) {
            self.message = String::from_str("Invalid budget value");
            PageAction::Nav(NavSignal::Stay)
        } else {
            PageAction::Request(
                HttpRequest::CreateCategory {
                    category: NewCategory {
                        email: self.email.clone(),
                        nickname: self.nickname.content.clone(),
                        category_type: self.category_type.content.clone(),
                        budget: self.budget.content.clone(),
                        budget_freq: self.budget_freq.content.clone(),
                    },
                },
            )
        }
    }

    /// One key in list mode, as [`cat_list_step`] describes.
    fn handle_list_input(&mut self, key: Key) -> (a: PageAction)
        requires
            old(self).wf(),
        ensures
            final(self).wf(),
            final(self)@ == cat_list_step(old(self)@, key).0,
            a@ == cat_list_step(old(self)@, key).1,
    {
        match key {
            Key::Char(c) => {
                if c == 'n' {
                    self.creating_category = true;
                    self.nickname.content = String::new();
                    self.category_type.content = String::new();
                    self.budget.content = String::new();
                    self.budget_freq.content = String::new();
                    self.active_field = 0;
                    PageAction::Nav(NavSignal::Stay)
                } else if c == 'd' {
                    match self.selected {
                        Option::Some(i) => PageAction::Request(
                            HttpRequest::DeleteCategory {
                                email: self.email.clone(),
                                nickname: self.categories[i].nickname.clone(),
                            },
                        ),
                        Option::None => PageAction::Nav(NavSignal::Stay),
                    }
                } else {
                    PageAction::Nav(NavSignal::Stay)
                }
            },
            Key::Up => {
                match self.selected {
                    Option::Some(i) => {
                        self.selected = Option::Some(prev_field(i, self.categories.len()));
                    },
                    Option::None => {},
                }
                PageAction::Nav(NavSignal::Stay)
            },
            Key::Down => {
                match self.selected {
                    Option::Some(i) => {
                        self.selected = Option::Some(next_field(i, self.categories.len()));
                    },
                    Option::None => {},
                }
                PageAction::Nav(NavSignal::Stay)
            },
            _ => PageAction::Nav(NavSignal::Stay),
        }
    }

    /// Applies the reply to a category-list fetch, as [`cat_fetch_step`]
    /// describes.
    pub fn apply_fetch_reply(&mut self, reply: CategoriesReply)
        requires
            old(self).wf(),
        ensures
            final(self).wf(),
            final(self)@ == cat_fetch_step(old(self)@, reply@),
    {
        match reply {
            CategoriesReply::Response { status, records } => {
                if status == 200 {
                    match records {
                        Option::Some(rs) => {
                            let len = rs.len();
                            self.categories = rs;
                            self.selected = if len == 0 {
                                Option::None
                            } else {
                                match self.selected {
                                    Option::None => Option::Some(0),
                                    Option::Some(i) => if i < len {
                                        Option::Some(i)
                                    } else {
                                        Option::Some(len - 1)
                                    },
                                }
                            };
                            let mut m = String::from_str("Loaded ");
                            let digits = u64_to_string(len as u64);
                            m.append(digits.as_str());
                            m.append(" categories");
                            self.message = m;
                        },
                        Option::None => {
                            self.message = String::from_str("Failed to parse category data");
                        },
                    }
                } else {
                    self.message = String::from_str("Failed to fetch categories");
                }
            },
            CategoriesReply::Failed { cause } => {
                let mut m = String::from_str("Error fetching categories: ");
                m.append(cause.as_str());
                self.message = m;
            },
        }
    }

    /// Applies the reply to a create request, as [`cat_create_reply_step`]
    /// describes; the result says whether the list must be fetched again.
    pub fn apply_create_reply(&mut self, reply: TextReply) -> (refetch: bool)
        requires
            old(self).wf(),
        ensures
            final(self).wf(),
            final(self)@ == cat_create_reply_step(old(self)@, reply@).0,
            refetch == cat_create_reply_step(old(self)@, reply@).1,
    {
        match reply {
            TextReply::Response { status, body } => {
                if status == 201 {
                    self.message = String::from_str("Category created successfully");
                    self.creating_category = false;
                    self.nickname.content = String::new();
                    self.category_type.content = String::new();
                    self.budget.content = String::new();
                    self.budget_freq.content = String::new();
                    self.active_field = 0;
                    true
                } else if status == 400 {
                    self.message = body;
                    false
                } else {
                    let mut m = String::from_str("Failed to create category: ");
                    m.append(body.as_str());
                    self.message = m;
                    false
                }
            },
            TextReply::Failed { cause } => {
                let mut m = String::from_str("Error creating category: ");
                m.append(cause.as_str());
                self.message = m;
                false
            },
        }
    }

    /// Applies the reply to a delete request, as [`cat_delete_reply_step`]
    /// describes; the result says whether the list must be fetched again.
    pub fn apply_delete_reply(&mut self, reply: TextReply) -> (refetch: bool)
        requires
            old(self).wf(),
        ensures
            final(self).wf(),
            final(self)@ == cat_delete_reply_step(old(self)@, reply@).0,
            refetch == cat_delete_reply_step(old(self)@, reply@).1,
    {
        match reply {
            TextReply::Response { status, body } => {
                if status == 200 {
                    self.message = String::from_str("Category deleted successfully");
                    true
                } else {
                    let mut m = String::from_str("Failed to delete category: ");
                    m.append(body.as_str());
                    self.message = m;
                    false
                }
            },
            TextReply::Failed { cause } => {
                let mut m = String::from_str("Error deleting category: ");
                m.append(cause.as_str());
                self.message = m;
                false
            },
        }
    }
}

} // verus!
