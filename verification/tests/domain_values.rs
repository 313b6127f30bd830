//! The validated domain values accept and reject the right texts.

use uchat::domain::post::{
    Caption, CaptionError, Headline, HeadlineError, Message, MessageError, PollChoiceDescription,
    PollChoiceDescriptionError, PollHeadline, PollHeadlineError,
};
use uchat::domain::user::{
    is_valid_email, DisplayName, DisplayNameError, Email, EmailError, Password, PasswordError,
    Username, UsernameError,
};
use uchat::domain::UserFacingError;

#[test]
fn username_accepts_reasonable_names() {
    let name = Username::new("alice".to_string()).unwrap();
    assert_eq!(name.as_str(), "alice");
    assert!(Username::new("abc".to_string()).is_ok());
    assert!(Username::new("a".repeat(30)).is_ok());
}

#[test]
fn username_rejects_bad_lengths() {
    assert_eq!(Username::new(String::new()).unwrap_err(), UsernameError::Missing);
    assert_eq!(Username::new("ab".to_string()).unwrap_err(), UsernameError::TooShort);
    assert_eq!(Username::new("a".repeat(31)).unwrap_err(), UsernameError::TooLong);
}

#[test]
fn username_counts_characters_not_bytes() {
    // Three two-byte characters: long enough by character count.
    assert!(Username::new("äöü".to_string()).is_ok());
}

#[test]
fn username_messages() {
    assert_eq!(UsernameError::Missing.formatted_error(), "User name cannot be empty");
    assert_eq!(
        UsernameError::TooShort.formatted_error(),
        "User name must be at least 3 characters"
    );
    assert_eq!(UsernameError::TooLong.formatted_error(), "User name must be at most 30 characters");
}

#[test]
fn password_bounds() {
    assert!(Password::new("12345678".to_string()).is_ok());
    assert!(matches!(Password::new(String::new()), Err(PasswordError::Missing)));
    assert!(matches!(Password::new("1234567".to_string()), Err(PasswordError::TooShort)));
    assert_eq!(PasswordError::Missing.formatted_error(), "Password cannot be empty");
    assert_eq!(PasswordError::TooShort.formatted_error(), "Password must be at least 8 characters");
}

#[test]
fn display_name_bounds() {
    assert!(DisplayName::new(String::new()).is_ok());
    assert!(DisplayName::new("a".repeat(30)).is_ok());
    assert_eq!(DisplayName::new("a".repeat(31)).unwrap_err(), DisplayNameError::TooLong);
    assert_eq!(DisplayName::MAX_CHARS, 30);
    assert_eq!(
        DisplayNameError::TooLong.formatted_error(),
        "Display name must be at most 30 characters"
    );
}

#[test]
fn headline_bounds() {
    assert!(Headline::new("hi".to_string()).is_ok());
    assert_eq!(Headline::new(String::new()).unwrap_err(), HeadlineError::Missing);
    assert_eq!(Headline::new("a".repeat(31)).unwrap_err(), HeadlineError::TooLong);
    assert_eq!(Headline::MAX_CHARS, 30);
    assert_eq!(HeadlineError::Missing.formatted_error(), "Headline cannot be empty");
}

#[test]
fn poll_headline_bounds() {
    assert!(PollHeadline::new("a".repeat(50)).is_ok());
    assert_eq!(PollHeadline::new(String::new()).unwrap_err(), PollHeadlineError::Missing);
    assert_eq!(PollHeadline::new("a".repeat(51)).unwrap_err(), PollHeadlineError::TooLong);
    assert_eq!(PollHeadline::MAX_CHARS, 50);
    assert_eq!(
        PollHeadlineError::TooLong.formatted_error(),
        "Headline must be at most 50 characters"
    );
}

#[test]
fn message_bounds() {
    assert!(Message::new("a".repeat(100)).is_ok());
    assert_eq!(Message::new(String::new()).unwrap_err(), MessageError::Missing);
    assert_eq!(Message::new("a".repeat(101)).unwrap_err(), MessageError::TooLong);
    assert_eq!(Message::MAX_CHARS, 100);
}

#[test]
fn caption_bounds() {
    assert!(Caption::new("a".repeat(60)).is_ok());
    assert_eq!(Caption::new(String::new()).unwrap_err(), CaptionError::Missing);
    assert_eq!(Caption::new("a".repeat(61)).unwrap_err(), CaptionError::TooLong);
    assert_eq!(Caption::MAX_CHARS, 60);
}

#[test]
fn poll_choice_description_bounds() {
    assert!(PollChoiceDescription::new("a".repeat(80)).is_ok());
    assert_eq!(
        PollChoiceDescription::new(String::new()).unwrap_err(),
        PollChoiceDescriptionError::Missing
    );
    assert_eq!(
        PollChoiceDescription::new("a".repeat(81)).unwrap_err(),
        PollChoiceDescriptionError::TooLong
    );
    assert_eq!(PollChoiceDescription::MAX_CHARS, 80);
    assert_eq!(
        PollChoiceDescriptionError::Missing.formatted_error(),
        "Poll choice cannot be empty"
    );
}

#[test]
fn email_accepts_ordinary_addresses() {
    assert!(is_valid_email("your_name@example.com"));
    assert!(is_valid_email("a@b.c"));
    assert!(is_valid_email("first.last@sub.domain.org"));
    // The part before the dot may itself contain `@` and dots.
    assert!(is_valid_email("a@b@c.d"));
}

#[test]
fn email_rejects_malformed_addresses() {
    assert!(!is_valid_email(""));
    assert!(!is_valid_email("plain"));
    assert!(!is_valid_email("no at.here"));
    assert!(!is_valid_email("a@b"));
    assert!(!is_valid_email("a@b."));
    assert!(!is_valid_email("@b.c"));
    assert!(!is_valid_email("has space@b.c"));
    assert!(!is_valid_email(&format!("a@b.{}", "c".repeat(65))));
    assert!(is_valid_email(&format!("a@b.{}", "c".repeat(64))));
}

#[test]
fn email_type_follows_the_check() {
    let e = Email::new("someone@example.com".to_string()).unwrap();
    assert_eq!(e.as_str(), "someone@example.com");
    assert_eq!(Email::new("nope".to_string()).unwrap_err(), EmailError::Invalid);
    assert_eq!(
        EmailError::Invalid.formatted_error(),
        "Email is not valid. Format: your_name@example.com"
    );
}

#[test]
fn validated_values_clone_and_unwrap() {
    let m = Message::new("hello".to_string()).unwrap();
    let m2 = m.clone();
    assert_eq!(m2.into_inner(), "hello");
    assert_eq!(m.as_str(), "hello");
}
