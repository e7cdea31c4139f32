use zero2prod_core::domain::{is_valid_email, is_valid_name, InputError, SubscriberEmail, SubscriberName};

#[test]
fn a_256_character_name_is_valid() {
    let name = "a".repeat(256);
    assert!(SubscriberName::parse(name).is_ok());
}

#[test]
fn a_name_longer_than_256_characters_is_rejected() {
    let name = "a".repeat(257);
    assert_eq!(SubscriberName::parse(name).err(), Some(InputError::InvalidName));
}

#[test]
fn whitespace_only_names_are_rejected() {
    assert!(!is_valid_name(" \t\u{3000} "));
    assert!(!is_valid_name(""));
}

#[test]
fn names_with_forbidden_characters_are_rejected() {
    for c in ['/', '(', ')', '"', '<', '>', '\\', '{', '}', '\u{7}', '\u{9f}'] {
        let name = format!("ursula {}", c);
        assert!(SubscriberName::parse(name).is_err(), "accepted {:?}", c);
    }
}

#[test]
fn a_valid_name_is_parsed_successfully() {
    let n = SubscriberName::parse("Ursula Le Guin".to_string()).unwrap();
    assert_eq!(n.as_str(), "Ursula Le Guin");
}

#[test]
fn emails_need_one_at_with_text_on_both_sides() {
    assert!(is_valid_email("ursula@domain.com"));
    assert!(!is_valid_email("ursuladomain.com"));
    assert!(!is_valid_email("@domain.com"));
    assert!(!is_valid_email("ursula@"));
    assert!(!is_valid_email("ur@sula@domain.com"));
    assert!(!is_valid_email(""));
    assert_eq!(SubscriberEmail::parse("x".to_string()).err(), Some(InputError::InvalidEmail));
    assert_eq!(SubscriberEmail::parse("u@d".to_string()).unwrap().as_str(), "u@d");
}
