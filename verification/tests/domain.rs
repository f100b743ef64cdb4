use pidgey::domain::{NameRule, ValidatedEmailAddress, ValidatedSubscriberName, ValidationError};

#[test]
fn valid_email_is_accepted_and_round_trips() {
    let v = ValidatedEmailAddress::parse("ursula_le_guin@gmail.com".to_string()).unwrap();
    assert_eq!(v.as_str(), "ursula_le_guin@gmail.com");
}

#[test]
fn email_without_at_is_rejected() {
    let r = ValidatedEmailAddress::parse("bobjones.gmail.com".to_string());
    assert_eq!(r.unwrap_err(), ValidationError::InvalidEmail);
}

#[test]
fn not_an_email_is_rejected() {
    let r = ValidatedEmailAddress::parse("not-an-email".to_string());
    assert_eq!(r.unwrap_err(), ValidationError::InvalidEmail);
}

#[test]
fn email_with_whitespace_is_rejected() {
    let r = ValidatedEmailAddress::parse("bob jones@gmail.com".to_string());
    assert_eq!(r.unwrap_err(), ValidationError::InvalidEmail);
    let r = ValidatedEmailAddress::parse("bob@gmail.com ".to_string());
    assert_eq!(r.unwrap_err(), ValidationError::InvalidEmail);
}

#[test]
fn email_without_dot_in_domain_is_rejected() {
    let r = ValidatedEmailAddress::parse("bob@gmailcom".to_string());
    assert_eq!(r.unwrap_err(), ValidationError::InvalidEmail);
}

#[test]
fn email_with_dot_only_before_at_is_rejected() {
    let r = ValidatedEmailAddress::parse("bob.jones@gmailcom".to_string());
    assert_eq!(r.unwrap_err(), ValidationError::InvalidEmail);
}

#[test]
fn email_with_two_ats_is_rejected() {
    let r = ValidatedEmailAddress::parse("bob@jones@gmail.com".to_string());
    assert_eq!(r.unwrap_err(), ValidationError::InvalidEmail);
}

#[test]
fn email_with_empty_local_or_domain_is_rejected() {
    assert_eq!(
        ValidatedEmailAddress::parse("@gmail.com".to_string()).unwrap_err(),
        ValidationError::InvalidEmail
    );
    assert_eq!(
        ValidatedEmailAddress::parse("bob@".to_string()).unwrap_err(),
        ValidationError::InvalidEmail
    );
    assert_eq!(
        ValidatedEmailAddress::parse("".to_string()).unwrap_err(),
        ValidationError::InvalidEmail
    );
}

#[test]
fn valid_name_is_accepted_and_round_trips() {
    let v = ValidatedSubscriberName::parse("bob jones".to_string()).unwrap();
    assert_eq!(v.as_str(), "bob jones");
}

#[test]
fn empty_name_is_rejected() {
    let r = ValidatedSubscriberName::parse("".to_string());
    assert_eq!(
        r.unwrap_err(),
        ValidationError::InvalidName(NameRule::Empty)
    );
}

#[test]
fn blank_name_is_rejected() {
    let r = ValidatedSubscriberName::parse(" \t\n ".to_string());
    assert_eq!(
        r.unwrap_err(),
        ValidationError::InvalidName(NameRule::Empty)
    );
}

#[test]
fn name_of_unicode_whitespace_only_is_rejected() {
    // U+00A0 no-break space and friends trim away like ASCII whitespace.
    for raw in ["\u{a0}", "\u{b}\u{c}", "\u{2003}\u{202f}\u{3000}", "\u{85}\u{1680}\u{2028}\u{2029}"] {
        assert!(raw.trim().is_empty());
        let r = ValidatedSubscriberName::parse(raw.to_string());
        assert_eq!(
            r.unwrap_err(),
            ValidationError::InvalidName(NameRule::Empty)
        );
    }
}

#[test]
fn unicode_whitespace_around_a_name_does_not_count_toward_the_bound() {
    let raw = format!("\u{a0}\u{2003}{}\u{202f}", "a".repeat(256));
    let v = ValidatedSubscriberName::parse(raw.clone()).unwrap();
    assert_eq!(v.as_str(), raw);
}

#[test]
fn email_with_unicode_whitespace_is_rejected() {
    for raw in ["bob\u{a0}jones@gmail.com", "bob@gmail.com\u{2003}", "\u{85}bob@gmail.com"] {
        let r = ValidatedEmailAddress::parse(raw.to_string());
        assert_eq!(r.unwrap_err(), ValidationError::InvalidEmail);
    }
}

#[test]
fn name_with_script_tag_is_rejected() {
    let r = ValidatedSubscriberName::parse("<script>".to_string());
    assert_eq!(
        r.unwrap_err(),
        ValidationError::InvalidName(NameRule::ForbiddenCharacter)
    );
}

#[test]
fn each_forbidden_character_is_rejected() {
    for c in ['/', '(', ')', '"', '<', '>', '\\', '{', '}'] {
        let raw = format!("bob{}jones", c);
        let r = ValidatedSubscriberName::parse(raw);
        assert_eq!(
            r.unwrap_err(),
            ValidationError::InvalidName(NameRule::ForbiddenCharacter)
        );
    }
}

#[test]
fn forbidden_character_wins_over_length() {
    let mut raw = "{".to_string();
    raw.push_str(&"a".repeat(300));
    let r = ValidatedSubscriberName::parse(raw);
    assert_eq!(
        r.unwrap_err(),
        ValidationError::InvalidName(NameRule::ForbiddenCharacter)
    );
}

#[test]
fn name_at_the_length_bound_is_accepted() {
    let v = ValidatedSubscriberName::parse("a".repeat(256)).unwrap();
    assert_eq!(v.as_str().len(), 256);
}

#[test]
fn name_over_the_length_bound_is_rejected() {
    let r = ValidatedSubscriberName::parse("a".repeat(257));
    assert_eq!(
        r.unwrap_err(),
        ValidationError::InvalidName(NameRule::TooLong)
    );
}

#[test]
fn surrounding_whitespace_does_not_count_toward_the_bound() {
    let raw = format!("   {}   ", "a".repeat(256));
    let v = ValidatedSubscriberName::parse(raw.clone()).unwrap();
    assert_eq!(v.as_str(), raw);
}
