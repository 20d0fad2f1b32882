use zero2prod::domain::{
    NewSubscriber, SubscriberEmail, SubscriberName, ValidationField, ValidationReason,
};

#[test]
fn name_rejects_whitespace_only_strings() {
    for raw in ["", " ", "   ", "\t", "\n\r \t", "\u{000B}", "\u{000C}", "\u{00A0}", "\u{2007}\u{3000}"] {
        let r = SubscriberName::parse(raw.to_string());
        let e = r.err().expect("blank name must be rejected");
        assert_eq!(e.field, ValidationField::Name);
        assert_eq!(e.reason, ValidationReason::Blank);
    }
}

#[test]
fn name_rejects_strings_longer_than_256_characters() {
    let raw = "a".repeat(257);
    let e = SubscriberName::parse(raw).err().expect("over-long name must be rejected");
    assert_eq!(e.field, ValidationField::Name);
    assert_eq!(e.reason, ValidationReason::TooLong);
}

#[test]
fn name_accepts_a_256_character_string() {
    let raw = "a".repeat(256);
    assert!(SubscriberName::parse(raw).is_ok());
}

#[test]
fn name_rejects_forbidden_characters() {
    for c in ['/', '(', ')', '"', '<', '>', '\\', '{', '}'] {
        let raw = format!("Ursula {} Le Guin", c);
        let e = SubscriberName::parse(raw).err().expect("forbidden character must be rejected");
        assert_eq!(e.field, ValidationField::Name);
        assert_eq!(e.reason, ValidationReason::ForbiddenCharacter);
    }
}

#[test]
fn name_accepts_an_ordinary_name() {
    let n = SubscriberName::parse("le guin".to_string()).expect("valid name");
    assert_eq!(n.as_ref().as_str(), "le guin");
    let n = SubscriberName::parse("Úrsula K. Le Guin".to_string()).expect("valid name");
    assert_eq!(n.as_ref().as_str(), "Úrsula K. Le Guin");
}

#[test]
fn email_rejects_string_without_at() {
    for raw in ["ursulagmail.com", "", "plain.words.only"] {
        let e = SubscriberEmail::parse(raw.to_string()).err().expect("must be rejected");
        assert_eq!(e.field, ValidationField::Email);
        assert_eq!(e.reason, ValidationReason::MalformedEmail);
    }
}

#[test]
fn email_rejects_domain_without_dot() {
    let r = SubscriberEmail::parse("ursula@gmailcom".to_string());
    assert!(r.is_err());
}

#[test]
fn email_rejects_missing_local_part_or_domain() {
    assert!(SubscriberEmail::parse("@gmail.com".to_string()).is_err());
    assert!(SubscriberEmail::parse("ursula@".to_string()).is_err());
}

#[test]
fn email_rejects_two_at_signs() {
    assert!(SubscriberEmail::parse("a@b@c.com".to_string()).is_err());
}

#[test]
fn email_rejects_whitespace() {
    assert!(SubscriberEmail::parse("ursula le guin@gmail.com".to_string()).is_err());
    assert!(SubscriberEmail::parse("ursula\u{00A0}le\u{2009}guin@gmail.com".to_string()).is_err());
}

#[test]
fn email_rejects_domain_starting_or_ending_with_dot() {
    assert!(SubscriberEmail::parse("ursula@.gmail.com".to_string()).is_err());
    assert!(SubscriberEmail::parse("ursula@gmail.com.".to_string()).is_err());
}

#[test]
fn email_accepts_a_well_formed_address() {
    let m = SubscriberEmail::parse("ursula_le_guin@gmail.com".to_string()).expect("valid email");
    assert_eq!(m.as_ref().as_str(), "ursula_le_guin@gmail.com");
}

#[test]
fn form_is_validated_name_first() {
    let e = NewSubscriber::try_from_form("".to_string(), "not-an-email".to_string())
        .err()
        .expect("both fields invalid");
    assert_eq!(e.field, ValidationField::Name);

    let e = NewSubscriber::try_from_form("le guin".to_string(), "not-an-email".to_string())
        .err()
        .expect("email invalid");
    assert_eq!(e.field, ValidationField::Email);

    let ns =
        NewSubscriber::try_from_form("le guin".to_string(), "ursula_le_guin@gmail.com".to_string())
            .expect("both fields valid");
    assert_eq!(ns.name.as_ref().as_str(), "le guin");
    assert_eq!(ns.email.as_ref().as_str(), "ursula_le_guin@gmail.com");
}
