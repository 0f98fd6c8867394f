//! Scenario tests that drive the whole application state machine through
//! the event-loop interface: keys in, commands out, replies back in.

use fintrack::app::{App, Command};
use fintrack::http::{CategoriesReply, Category, HttpRequest, TextReply};
use fintrack::keys::Key;
use fintrack::nav::State;

fn type_text(app: &mut App, text: &str) {
    for c in text.chars() {
        let cmd = app.handle_key(Key::Char(c));
        assert!(matches!(cmd, Command::Continue));
    }
}

/// Drives a fresh application through a successful login as alice.
fn login_as_alice(app: &mut App) {
    assert!(matches!(app.handle_key(Key::Char('2')), Command::Continue));
    assert!(matches!(app.state, State::Login));
    type_text(app, "a@b.c");
    let cmd = app.handle_key(Key::Enter);
    match cmd {
        Command::Http(HttpRequest::LoginUser { email, .. }) => assert_eq!(email, "a@b.c"),
        _ => panic!("expected the login request"),
    }
    let cmd = app.apply_text_reply(TextReply::Response {
        status: 200,
        body: "Login successful alice".to_string(),
    });
    match cmd {
        Command::Http(HttpRequest::FetchOverview { email }) => assert_eq!(email, "a@b.c"),
        _ => panic!("expected the overview fetch"),
    }
    let cmd = app.apply_text_reply(TextReply::Response {
        status: 200,
        body: "spent 10 of 100".to_string(),
    });
    assert!(matches!(cmd, Command::Continue));
}

fn record(nickname: &str) -> Category {
    Category {
        email: "a@b.c".to_string(),
        nickname: nickname.to_string(),
        category_type: "expense".to_string(),
        budget: "10".to_string(),
        budget_freq: "monthly".to_string(),
    }
}

#[test]
fn esc_on_the_cover_quits() {
    let mut app = App::new();
    assert!(matches!(app.handle_key(Key::Esc), Command::Quit));
}

#[test]
fn signup_esc_returns_to_the_cover() {
    let mut app = App::new();
    app.handle_key(Key::Char('1'));
    assert!(matches!(app.state, State::Signup));
    assert!(matches!(app.handle_key(Key::Esc), Command::Continue));
    assert!(matches!(app.state, State::Cover));
}

#[test]
fn login_esc_quits() {
    let mut app = App::new();
    app.handle_key(Key::Char('2'));
    assert!(matches!(app.state, State::Login));
    assert!(matches!(app.handle_key(Key::Esc), Command::Quit));
}

#[test]
fn signup_mismatch_issues_no_request_and_stays() {
    let mut app = App::new();
    app.handle_key(Key::Char('1'));
    type_text(&mut app, "alice");
    app.handle_key(Key::Tab);
    type_text(&mut app, "a@b.c");
    app.handle_key(Key::Tab);
    type_text(&mut app, "pw1");
    app.handle_key(Key::Tab);
    type_text(&mut app, "pw2");
    let cmd = app.handle_key(Key::Enter);
    assert!(matches!(cmd, Command::Continue));
    assert!(matches!(app.state, State::Signup));
    assert_eq!(app.signup_page.response_message, "Passwords do not match");
    assert!(app.pending.is_none());
}

#[test]
fn signup_success_advances_to_login() {
    let mut app = App::new();
    app.handle_key(Key::Char('1'));
    type_text(&mut app, "alice");
    app.handle_key(Key::Tab);
    type_text(&mut app, "a@b.c");
    app.handle_key(Key::Tab);
    type_text(&mut app, "pw");
    app.handle_key(Key::Tab);
    type_text(&mut app, "pw");
    let cmd = app.handle_key(Key::Enter);
    assert!(matches!(cmd, Command::Http(HttpRequest::SignupUser { .. })));
    let cmd = app.apply_text_reply(TextReply::Response {
        status: 201,
        body: "created".to_string(),
    });
    assert!(matches!(cmd, Command::Continue));
    assert!(matches!(app.state, State::Login));
}

#[test]
fn login_success_builds_the_homepage_payload() {
    let mut app = App::new();
    login_as_alice(&mut app);
    assert!(matches!(app.state, State::Homepage));
    let home = app.homepage.as_ref().expect("the payload must exist");
    assert_eq!(home.username, "alice");
    assert_eq!(home.email, "a@b.c");
    assert_eq!(home.report_overview, "spent 10 of 100");
}

#[test]
fn login_failure_stays_with_the_raw_body_displayed() {
    let mut app = App::new();
    app.handle_key(Key::Char('2'));
    type_text(&mut app, "a@b.c");
    let cmd = app.handle_key(Key::Enter);
    assert!(matches!(cmd, Command::Http(HttpRequest::LoginUser { .. })));
    let cmd = app.apply_text_reply(TextReply::Response {
        status: 401,
        body: "bad credentials".to_string(),
    });
    assert!(matches!(cmd, Command::Continue));
    assert!(matches!(app.state, State::Login));
    assert!(app.homepage.is_none());
    assert_eq!(
        app.login_page.response_message,
        "Login failed: 401\nMessage: bad credentials"
    );
}

#[test]
fn entering_the_category_page_fetches_once() {
    let mut app = App::new();
    login_as_alice(&mut app);
    let cmd = app.handle_key(Key::Char('2'));
    match cmd {
        Command::Http(HttpRequest::FetchCategories { email }) => assert_eq!(email, "a@b.c"),
        _ => panic!("expected the category fetch"),
    }
    assert!(matches!(app.state, State::Category));
    let cmd = app.apply_categories_reply(CategoriesReply::Response {
        status: 200,
        records: Some(vec![record("food")]),
    });
    assert!(matches!(cmd, Command::Continue));
    let page = app.category_page.as_ref().expect("the page must exist");
    assert_eq!(page.message, "Loaded 1 categories");
    assert_eq!(page.selected, Some(0));
}

#[test]
fn invalid_budget_is_rejected_locally_and_a_valid_one_creates() {
    let mut app = App::new();
    login_as_alice(&mut app);
    app.handle_key(Key::Char('2'));
    app.apply_categories_reply(CategoriesReply::Response {
        status: 200,
        records: Some(vec![record("food")]),
    });
    assert!(matches!(app.handle_key(Key::Char('n')), Command::Continue));
    type_text(&mut app, "games");
    app.handle_key(Key::Tab);
    type_text(&mut app, "expense");
    app.handle_key(Key::Tab);
    type_text(&mut app, "abc");
    app.handle_key(Key::Tab);
    type_text(&mut app, "monthly");

    // The unparsable budget is rejected before any request is issued.
    let cmd = app.handle_key(Key::Enter);
    assert!(matches!(cmd, Command::Continue));
    assert!(app.pending.is_none());
    assert_eq!(
        app.category_page.as_ref().unwrap().message,
        "Invalid budget value"
    );

    // Fix the budget field and submit: exactly one POST.
    app.handle_key(Key::BackTab);
    for _ in 0..3 {
        app.handle_key(Key::Backspace);
    }
    type_text(&mut app, "42.50");
    let cmd = app.handle_key(Key::Enter);
    match cmd {
        Command::Http(HttpRequest::CreateCategory { category }) => {
            assert_eq!(category.nickname, "games");
            assert_eq!(category.category_type, "expense");
            assert_eq!(category.budget, "42.50");
            assert_eq!(category.budget_freq, "monthly");
            assert_eq!(category.email, "a@b.c");
        }
        _ => panic!("expected the create request"),
    }

    // A 201 exits create mode and triggers exactly one re-fetch.
    let cmd = app.apply_text_reply(TextReply::Response {
        status: 201,
        body: "created".to_string(),
    });
    match cmd {
        Command::Http(HttpRequest::FetchCategories { email }) => assert_eq!(email, "a@b.c"),
        _ => panic!("expected the re-fetch"),
    }
    let page = app.category_page.as_ref().unwrap();
    assert!(!page.creating_category);
    assert_eq!(page.message, "Category created successfully");
    let cmd = app.apply_categories_reply(CategoriesReply::Response {
        status: 200,
        records: Some(vec![record("food"), record("games")]),
    });
    assert!(matches!(cmd, Command::Continue));
    assert_eq!(app.category_page.as_ref().unwrap().message, "Loaded 2 categories");
}

#[test]
fn create_rejected_by_the_server_surfaces_its_message() {
    let mut app = App::new();
    login_as_alice(&mut app);
    app.handle_key(Key::Char('2'));
    app.apply_categories_reply(CategoriesReply::Response { status: 200, records: Some(vec![]) });
    app.handle_key(Key::Char('n'));
    type_text(&mut app, "games");
    app.handle_key(Key::Tab);
    type_text(&mut app, "expense");
    app.handle_key(Key::Tab);
    type_text(&mut app, "5");
    app.handle_key(Key::Tab);
    type_text(&mut app, "weekly");
    let cmd = app.handle_key(Key::Enter);
    assert!(matches!(cmd, Command::Http(HttpRequest::CreateCategory { .. })));
    let cmd = app.apply_text_reply(TextReply::Response {
        status: 400,
        body: "budget frequency must be daily, weekly or monthly".to_string(),
    });
    assert!(matches!(cmd, Command::Continue));
    let page = app.category_page.as_ref().unwrap();
    assert!(page.creating_category);
    assert_eq!(page.message, "budget frequency must be daily, weekly or monthly");
}

#[test]
fn deleting_a_category_refetches_on_success() {
    let mut app = App::new();
    login_as_alice(&mut app);
    app.handle_key(Key::Char('2'));
    app.apply_categories_reply(CategoriesReply::Response {
        status: 200,
        records: Some(vec![record("food"), record("rent")]),
    });
    let cmd = app.handle_key(Key::Char('d'));
    match cmd {
        Command::Http(HttpRequest::DeleteCategory { email, nickname }) => {
            assert_eq!(email, "a@b.c");
            assert_eq!(nickname, "food");
        }
        _ => panic!("expected the delete request"),
    }
    let cmd = app.apply_text_reply(TextReply::Response { status: 200, body: "".to_string() });
    assert!(matches!(cmd, Command::Http(HttpRequest::FetchCategories { .. })));
    let cmd = app.apply_categories_reply(CategoriesReply::Response {
        status: 200,
        records: Some(vec![record("rent")]),
    });
    assert!(matches!(cmd, Command::Continue));
    let page = app.category_page.as_ref().unwrap();
    assert_eq!(page.categories.len(), 1);
    assert_eq!(page.selected, Some(0));
}

#[test]
fn sub_pages_return_to_the_homepage() {
    let mut app = App::new();
    login_as_alice(&mut app);
    assert!(matches!(app.handle_key(Key::Char('1')), Command::Continue));
    assert!(matches!(app.state, State::Account));
    assert!(matches!(app.handle_key(Key::Esc), Command::Continue));
    assert!(matches!(app.state, State::Homepage));

    let cmd = app.handle_key(Key::Char('3'));
    assert!(matches!(cmd, Command::Http(HttpRequest::FetchSummaries { .. })));
    assert!(matches!(app.state, State::Report));
    let cmd = app.apply_summaries_reply(fintrack::http::SummariesReply::Response {
        status: 200,
        records: Some(vec![]),
    });
    assert!(matches!(cmd, Command::Continue));
    assert!(matches!(app.handle_key(Key::Esc), Command::Continue));
    assert!(matches!(app.state, State::Homepage));
    assert!(app.report_page.is_none());

    assert!(matches!(app.handle_key(Key::Esc), Command::Quit));
}

#[test]
fn transport_failure_on_fetch_keeps_the_page_usable() {
    let mut app = App::new();
    login_as_alice(&mut app);
    app.handle_key(Key::Char('2'));
    let cmd = app.apply_categories_reply(CategoriesReply::Failed {
        cause: "connection refused".to_string(),
    });
    assert!(matches!(cmd, Command::Continue));
    let page = app.category_page.as_ref().unwrap();
    assert_eq!(page.message, "Error fetching categories: connection refused");
    assert!(matches!(app.handle_key(Key::Esc), Command::Continue));
    assert!(matches!(app.state, State::Homepage));
}
