//! Tests of the individual pages: routing, field cycling, local validation,
//! and reply handling.

use fintrack::category_main::CategoryMain;
use fintrack::cover::CoverPage;
use fintrack::homepage::Homepage;
use fintrack::http::{Category, CategoriesReply, CategorySummary, HttpRequest, PageAction, SummariesReply, TextReply};
use fintrack::keys::Key;
use fintrack::login::{LoginOutcome, LoginPage};
use fintrack::nav::{NavSignal, State};
use fintrack::report::overview_from_reply;
use fintrack::report_main::ReportMain;
use fintrack::signup::SignupPage;

fn type_into(page: &mut SignupPage, text: &str) {
    for c in text.chars() {
        page.handle_input(Key::Char(c));
    }
}

#[test]
fn cover_routes_its_three_keys() {
    let cover = CoverPage::new();
    assert_eq!(cover.handle_input(Key::Esc), NavSignal::Quit);
    assert_eq!(cover.handle_input(Key::Char('1')), NavSignal::Advance(State::Signup));
    assert_eq!(cover.handle_input(Key::Char('2')), NavSignal::Advance(State::Login));
    assert_eq!(cover.handle_input(Key::Char('9')), NavSignal::Stay);
    assert_eq!(cover.handle_input(Key::Enter), NavSignal::Stay);
}

#[test]
fn signup_tab_cycles_with_period_four() {
    let mut page = SignupPage::new();
    assert_eq!(page.active_field, 0);
    for expected in [1, 2, 3, 0, 1] {
        page.handle_input(Key::Tab);
        assert_eq!(page.active_field, expected);
    }
}

#[test]
fn signup_backtab_is_the_inverse_of_tab() {
    let mut page = SignupPage::new();
    page.handle_input(Key::BackTab);
    assert_eq!(page.active_field, 3);
    page.handle_input(Key::Tab);
    assert_eq!(page.active_field, 0);
    page.handle_input(Key::Tab);
    page.handle_input(Key::BackTab);
    assert_eq!(page.active_field, 0);
}

#[test]
fn login_tab_cycles_with_period_two() {
    let mut page = LoginPage::new();
    page.handle_input(Key::Tab);
    assert_eq!(page.active_field, 1);
    page.handle_input(Key::Tab);
    assert_eq!(page.active_field, 0);
    page.handle_input(Key::BackTab);
    assert_eq!(page.active_field, 1);
}

#[test]
fn signup_keys_reach_the_active_field() {
    let mut page = SignupPage::new();
    type_into(&mut page, "alice");
    page.handle_input(Key::Tab);
    type_into(&mut page, "a@b.c");
    assert_eq!(page.username.content, "alice");
    assert_eq!(page.email.content, "a@b.c");
    assert_eq!(page.password.content, "");
}

#[test]
fn signup_password_mismatch_is_local() {
    let mut page = SignupPage::new();
    type_into(&mut page, "alice");
    page.handle_input(Key::Tab);
    type_into(&mut page, "a@b.c");
    page.handle_input(Key::Tab);
    type_into(&mut page, "pw1");
    page.handle_input(Key::Tab);
    type_into(&mut page, "pw2");
    let action = page.handle_input(Key::Enter);
    assert!(matches!(action, PageAction::Nav(NavSignal::Stay)));
    assert_eq!(page.response_message, "Passwords do not match");
}

#[test]
fn signup_matching_passwords_build_the_request() {
    let mut page = SignupPage::new();
    type_into(&mut page, "alice");
    page.handle_input(Key::Tab);
    type_into(&mut page, "a@b.c");
    page.handle_input(Key::Tab);
    type_into(&mut page, "pw");
    page.handle_input(Key::Tab);
    type_into(&mut page, "pw");
    let action = page.handle_input(Key::Enter);
    match action {
        PageAction::Request(HttpRequest::SignupUser { username, email, password }) => {
            assert_eq!(username, "alice");
            assert_eq!(email, "a@b.c");
            assert_eq!(password, "pw");
        }
        _ => panic!("expected a signup request"),
    }
}

#[test]
fn signup_reply_201_advances_to_login() {
    let mut page = SignupPage::new();
    let n = page.apply_reply(TextReply::Response { status: 201, body: "created".to_string() });
    assert_eq!(n, NavSignal::Advance(State::Login));
    assert_eq!(page.response_message, "Signup successful");
}

#[test]
fn signup_reply_4xx_surfaces_the_body_verbatim() {
    let mut page = SignupPage::new();
    let n = page.apply_reply(TextReply::Response {
        status: 409,
        body: "user already exists".to_string(),
    });
    assert_eq!(n, NavSignal::Stay);
    assert_eq!(page.response_message, "user already exists");
}

#[test]
fn signup_transport_failure_reports_the_cause() {
    let mut page = SignupPage::new();
    let n = page.apply_reply(TextReply::Failed { cause: "connection refused".to_string() });
    assert_eq!(n, NavSignal::Stay);
    assert_eq!(page.response_message, "Request failed: connection refused");
}

#[test]
fn login_success_extracts_the_username() {
    let mut page = LoginPage::new();
    let out = page.apply_reply(TextReply::Response {
        status: 200,
        body: "Login successful alice".to_string(),
    });
    match out {
        LoginOutcome::FetchOverview { username } => assert_eq!(username, "alice"),
        LoginOutcome::Stay => panic!("expected the overview fetch"),
    }
    assert_eq!(page.response_message, "Login successful! Redirecting to homepage...");
}

#[test]
fn login_failure_displays_the_raw_status_and_body() {
    let mut page = LoginPage::new();
    let out = page.apply_reply(TextReply::Response {
        status: 401,
        body: "bad credentials".to_string(),
    });
    assert!(matches!(out, LoginOutcome::Stay));
    assert_eq!(page.response_message, "Login failed: 401\nMessage: bad credentials");
}

#[test]
fn login_success_without_marker_is_unexpected_format() {
    let mut page = LoginPage::new();
    let out = page.apply_reply(TextReply::Response { status: 200, body: "ok".to_string() });
    assert!(matches!(out, LoginOutcome::Stay));
    assert_eq!(page.response_message, "Login successful, but response format is unexpected.");
}

#[test]
fn login_success_without_username_token_stays() {
    let mut page = LoginPage::new();
    let out = page.apply_reply(TextReply::Response {
        status: 200,
        body: "Login successful".to_string(),
    });
    assert!(matches!(out, LoginOutcome::Stay));
    assert_eq!(page.response_message, "Login successful, but failed to extract username.");
}

#[test]
fn login_transport_failure_reports_the_cause() {
    let mut page = LoginPage::new();
    let out = page.apply_reply(TextReply::Failed { cause: "timeout".to_string() });
    assert!(matches!(out, LoginOutcome::Stay));
    assert_eq!(page.response_message, "Request failed: timeout");
}

#[test]
fn overview_reply_yields_body_on_success_and_error_line_otherwise() {
    let ok = overview_from_reply(TextReply::Response {
        status: 200,
        body: "all within budget".to_string(),
    });
    assert_eq!(ok, "all within budget");
    let bad = overview_from_reply(TextReply::Response { status: 500, body: "oops".to_string() });
    assert_eq!(bad, "Error querying report overview!");
    let failed = overview_from_reply(TextReply::Failed { cause: "dns".to_string() });
    assert_eq!(failed, "Error querying report overview!");
}

#[test]
fn homepage_routes_digits_to_sub_pages() {
    let home = Homepage::new("alice".to_string(), "a@b.c".to_string(), "text".to_string());
    assert_eq!(home.handle_input(Key::Esc), NavSignal::Quit);
    assert_eq!(home.handle_input(Key::Char('1')), NavSignal::Advance(State::Account));
    assert_eq!(home.handle_input(Key::Char('2')), NavSignal::Advance(State::Category));
    assert_eq!(home.handle_input(Key::Char('3')), NavSignal::Advance(State::Report));
    assert_eq!(home.handle_input(Key::Char('4')), NavSignal::Stay);
}

fn record(nickname: &str) -> Category {
    Category {
        email: "a@b.c".to_string(),
        nickname: nickname.to_string(),
        category_type: "expense".to_string(),
        budget: "10".to_string(),
        budget_freq: "monthly".to_string(),
    }
}

fn page_with_three_records() -> CategoryMain {
    let mut page = CategoryMain::new("a@b.c".to_string());
    page.apply_fetch_reply(CategoriesReply::Response {
        status: 200,
        records: Some(vec![record("food"), record("rent"), record("fun")]),
    });
    page
}

#[test]
fn fetch_reply_selects_the_first_record_and_reports_the_count() {
    let mut page = CategoryMain::new("a@b.c".to_string());
    assert_eq!(page.message, "Loading categories...");
    assert_eq!(page.selected, None);
    page.apply_fetch_reply(CategoriesReply::Response {
        status: 200,
        records: Some(vec![record("food"), record("rent"), record("fun")]),
    });
    assert_eq!(page.selected, Some(0));
    assert_eq!(page.message, "Loaded 3 categories");
}

#[test]
fn fetch_reply_failures_set_the_message() {
    let mut page = CategoryMain::new("a@b.c".to_string());
    page.apply_fetch_reply(CategoriesReply::Response { status: 200, records: None });
    assert_eq!(page.message, "Failed to parse category data");
    page.apply_fetch_reply(CategoriesReply::Response { status: 500, records: None });
    assert_eq!(page.message, "Failed to fetch categories");
    page.apply_fetch_reply(CategoriesReply::Failed { cause: "refused".to_string() });
    assert_eq!(page.message, "Error fetching categories: refused");
    assert_eq!(page.selected, None);
}

#[test]
fn navigation_over_an_empty_list_is_a_no_op() {
    let mut page = CategoryMain::new("a@b.c".to_string());
    page.handle_input(Key::Up);
    assert_eq!(page.selected, None);
    page.handle_input(Key::Down);
    assert_eq!(page.selected, None);
}

#[test]
fn navigation_wraps_around_over_three_records() {
    let mut page = page_with_three_records();
    assert_eq!(page.selected, Some(0));
    page.handle_input(Key::Up);
    assert_eq!(page.selected, Some(2));
    page.handle_input(Key::Down);
    assert_eq!(page.selected, Some(0));
    page.handle_input(Key::Down);
    assert_eq!(page.selected, Some(1));
}

#[test]
fn delete_asks_for_the_highlighted_record() {
    let mut page = page_with_three_records();
    page.handle_input(Key::Down);
    let action = page.handle_input(Key::Char('d'));
    match action {
        PageAction::Request(HttpRequest::DeleteCategory { email, nickname }) => {
            assert_eq!(email, "a@b.c");
            assert_eq!(nickname, "rent");
        }
        _ => panic!("expected a delete request"),
    }
}

#[test]
fn create_mode_clears_the_form_and_cycles_four_fields() {
    let mut page = page_with_three_records();
    for c in "old".chars() {
        page.nickname.handle_input(Key::Char(c));
    }
    page.handle_input(Key::Char('n'));
    assert!(page.creating_category);
    assert_eq!(page.nickname.content, "");
    assert_eq!(page.active_field, 0);
    for expected in [1, 2, 3, 0] {
        page.handle_input(Key::Tab);
        assert_eq!(page.active_field, expected);
    }
    page.handle_input(Key::BackTab);
    assert_eq!(page.active_field, 3);
}

#[test]
fn create_with_empty_fields_is_rejected_locally() {
    let mut page = page_with_three_records();
    page.handle_input(Key::Char('n'));
    let action = page.handle_input(Key::Enter);
    assert!(matches!(action, PageAction::Nav(NavSignal::Stay)));
    assert_eq!(page.message, "Please fill in all fields");
}

#[test]
fn refetch_keeps_or_clamps_the_selection() {
    let mut page = page_with_three_records();
    page.handle_input(Key::Down);
    assert_eq!(page.selected, Some(1));
    page.apply_fetch_reply(CategoriesReply::Response {
        status: 200,
        records: Some(vec![record("food"), record("rent"), record("fun")]),
    });
    assert_eq!(page.selected, Some(1));
    page.apply_fetch_reply(CategoriesReply::Response {
        status: 200,
        records: Some(vec![record("food")]),
    });
    assert_eq!(page.selected, Some(0));
    page.apply_fetch_reply(CategoriesReply::Response { status: 200, records: Some(vec![]) });
    assert_eq!(page.selected, None);
}

#[test]
fn create_reply_failures_set_the_message() {
    let mut page = page_with_three_records();
    page.handle_input(Key::Char('n'));
    let refetch = page.apply_create_reply(TextReply::Response {
        status: 500,
        body: "server blew up".to_string(),
    });
    assert!(!refetch);
    assert_eq!(page.message, "Failed to create category: server blew up");
    assert!(page.creating_category);
    let refetch = page.apply_create_reply(TextReply::Failed { cause: "timeout".to_string() });
    assert!(!refetch);
    assert_eq!(page.message, "Error creating category: timeout");
}

#[test]
fn delete_reply_failures_set_the_message() {
    let mut page = page_with_three_records();
    let refetch = page.apply_delete_reply(TextReply::Response {
        status: 404,
        body: "no such category".to_string(),
    });
    assert!(!refetch);
    assert_eq!(page.message, "Failed to delete category: no such category");
    let refetch = page.apply_delete_reply(TextReply::Failed { cause: "refused".to_string() });
    assert!(!refetch);
    assert_eq!(page.message, "Error deleting category: refused");
}

#[test]
fn report_fetch_replies_fill_blocks_or_message() {
    let mut page = ReportMain::new("a@b.c".to_string());
    page.apply_fetch_reply(SummariesReply::Response {
        status: 200,
        records: Some(vec![CategorySummary {
            nickname: "food".to_string(),
            budget: "100".to_string(),
            budget_freq: "monthly".to_string(),
            overbudget: false,
            total: "40.5".to_string(),
            cat_trans: vec!["groceries -12.5".to_string()],
        }]),
    });
    assert_eq!(page.summary_blocks.len(), 1);
    assert_eq!(page.summary_blocks[0].nickname, "food");

    page.apply_fetch_reply(SummariesReply::Response { status: 200, records: None });
    assert_eq!(page.message, "Failed to parse report details");
    page.apply_fetch_reply(SummariesReply::Response { status: 503, records: None });
    assert_eq!(page.message, "Failed to fetch report details");
    page.apply_fetch_reply(SummariesReply::Failed { cause: "dns".to_string() });
    assert_eq!(page.message, "Error fetching report details: dns");
    assert_eq!(page.summary_blocks.len(), 1);
}

#[test]
fn esc_leaves_create_mode_before_leaving_the_page() {
    let mut page = page_with_three_records();
    page.handle_input(Key::Char('n'));
    let action = page.handle_input(Key::Esc);
    assert!(matches!(action, PageAction::Nav(NavSignal::Stay)));
    assert!(!page.creating_category);
    let action = page.handle_input(Key::Esc);
    assert!(matches!(action, PageAction::Nav(NavSignal::Back)));
}
