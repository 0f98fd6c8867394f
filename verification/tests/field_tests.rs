//! Tests of the input field widget and the text utilities.

use fintrack::components::InputField;
use fintrack::keys::Key;
use fintrack::text::{find_first, first_token, is_valid_decimal, u64_to_string};

#[test]
fn typing_then_erasing_returns_to_empty() {
    let mut f = InputField::new("Username", false);
    let typed = "alice42";
    for c in typed.chars() {
        f.handle_input(Key::Char(c));
    }
    assert_eq!(f.content, "alice42");
    for _ in 0..typed.len() {
        f.handle_input(Key::Backspace);
    }
    assert_eq!(f.content, "");
}

#[test]
fn backspace_on_empty_is_a_no_op() {
    let mut f = InputField::new("Email", false);
    f.handle_input(Key::Backspace);
    assert_eq!(f.content, "");
    f.handle_input(Key::Char('a'));
    f.handle_input(Key::Backspace);
    f.handle_input(Key::Backspace);
    assert_eq!(f.content, "");
}

#[test]
fn control_characters_are_rejected() {
    let mut f = InputField::new("Username", false);
    f.handle_input(Key::Char('\u{0007}'));
    f.handle_input(Key::Char('\u{007f}'));
    f.handle_input(Key::Char('\n'));
    assert_eq!(f.content, "");
    f.handle_input(Key::Char('a'));
    assert_eq!(f.content, "a");
}

#[test]
fn other_keys_leave_the_buffer_alone() {
    let mut f = InputField::new("Username", false);
    f.handle_input(Key::Char('x'));
    f.handle_input(Key::Up);
    f.handle_input(Key::Down);
    f.handle_input(Key::Enter);
    f.handle_input(Key::Esc);
    f.handle_input(Key::Other);
    assert_eq!(f.content, "x");
}

#[test]
fn masked_display_shows_one_star_per_character() {
    let mut f = InputField::new("Password", true);
    for c in "secret".chars() {
        f.handle_input(Key::Char(c));
    }
    assert_eq!(f.display_text(false), "******");
    assert_eq!(f.display_text(true), "******|");
}

#[test]
fn unmasked_display_shows_the_content() {
    let mut f = InputField::new("Email", false);
    for c in "a@b.c".chars() {
        f.handle_input(Key::Char(c));
    }
    assert_eq!(f.display_text(false), "a@b.c");
    assert_eq!(f.display_text(true), "a@b.c|");
}

#[test]
fn number_rendering_is_decimal() {
    assert_eq!(u64_to_string(0), "0");
    assert_eq!(u64_to_string(7), "7");
    assert_eq!(u64_to_string(42), "42");
    assert_eq!(u64_to_string(401), "401");
    assert_eq!(u64_to_string(10_000), "10000");
}

#[test]
fn decimal_validation_accepts_numerals() {
    assert!(is_valid_decimal("42.50"));
    assert!(is_valid_decimal("42"));
    assert!(is_valid_decimal("0.5"));
    assert!(is_valid_decimal(".5"));
    assert!(is_valid_decimal("42."));
    assert!(is_valid_decimal("-3.25"));
    assert!(is_valid_decimal("+7"));
}

#[test]
fn decimal_validation_rejects_everything_else() {
    assert!(!is_valid_decimal("abc"));
    assert!(!is_valid_decimal(""));
    assert!(!is_valid_decimal("."));
    assert!(!is_valid_decimal("-"));
    assert!(!is_valid_decimal("-."));
    assert!(!is_valid_decimal("4a"));
    assert!(!is_valid_decimal("1.2.3"));
    assert!(!is_valid_decimal("4 2"));
}

#[test]
fn substring_search_finds_the_first_occurrence() {
    assert_eq!(find_first("Login successful alice", "Login successful"), Some(0));
    assert_eq!(find_first("xx Login successful", "Login successful"), Some(3));
    assert_eq!(find_first("Login succes", "Login successful"), None);
    assert_eq!(find_first("abcabc", "bc"), Some(1));
    assert_eq!(find_first("anything", ""), Some(0));
}

#[test]
fn first_token_skips_leading_whitespace() {
    assert_eq!(first_token("  alice bob"), Some("alice".to_string()));
    assert_eq!(first_token("alice"), Some("alice".to_string()));
    assert_eq!(first_token("   "), None);
    assert_eq!(first_token(""), None);
    assert_eq!(first_token("\n\tbob "), Some("bob".to_string()));
}
