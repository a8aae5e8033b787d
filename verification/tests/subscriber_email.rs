use newsletter::domain::subscriber_email::check_email;
use newsletter::domain::{Reason, SubscriberEmail, ValidationError};

fn invalid() -> ValidationError {
    ValidationError { reason: Reason::InvalidSyntax }
}

#[test]
fn a_valid_email_is_parsed_successfully() {
    let email = SubscriberEmail::parse("ursula_le_guin@gmail.com".to_string()).unwrap();
    assert_eq!(email.as_ref(), "ursula_le_guin@gmail.com");
}

#[test]
fn text_without_an_at_sign_is_rejected() {
    let parsed = SubscriberEmail::parse("not-an-email".to_string());
    assert_eq!(parsed.unwrap_err(), invalid());
    let parsed = SubscriberEmail::parse("ursuladomain.com".to_string());
    assert_eq!(parsed.unwrap_err(), invalid());
}

#[test]
fn empty_email_is_rejected() {
    let parsed = SubscriberEmail::parse(String::new());
    assert_eq!(parsed.unwrap_err(), invalid());
}

#[test]
fn email_missing_subject_is_rejected() {
    let parsed = SubscriberEmail::parse("@domain.com".to_string());
    assert_eq!(parsed.unwrap_err(), invalid());
}

#[test]
fn email_missing_domain_is_rejected() {
    let parsed = SubscriberEmail::parse("ursula@".to_string());
    assert_eq!(parsed.unwrap_err(), invalid());
}

#[test]
fn a_domain_without_a_dot_is_rejected() {
    for text in ["abc@bar", "ursula@localhost", "first.last@domain", "email@[2001:dB8::1]"] {
        let parsed = SubscriberEmail::parse(text.to_string());
        assert_eq!(parsed.unwrap_err(), invalid(), "{:?}", text);
    }
}

#[test]
fn a_well_shaped_text_still_has_to_pass_the_standard_check() {
    for text in [
        "a @x.cz",
        "something@@somewhere.com",
        "abc@.com",
        "example@invalid-.com",
        "example@-invalid.com",
        "ursula@gmail.com\n",
        "a@b.c d",
    ] {
        let parsed = SubscriberEmail::parse(text.to_string());
        assert_eq!(parsed.unwrap_err(), invalid(), "{:?}", text);
    }
}

#[test]
fn usual_addresses_are_accepted() {
    for text in [
        "email@here.com",
        "weirder-email@here.and.there.com",
        "!def!xyz%abc@example.com",
        "example@valid-with-hyphens.com",
        "email@127.0.0.1",
        "email@[127.0.0.1]",
        "a@b.c",
    ] {
        let email = SubscriberEmail::parse(text.to_string()).unwrap();
        assert_eq!(email.as_ref(), text);
    }
}

#[test]
fn check_email_needs_both_the_shape_and_the_standard_check() {
    assert_eq!(check_email("a@b.c", true), Ok(()));
    assert_eq!(check_email("a@b.c", false), Err(invalid()));
    assert_eq!(check_email("a@bc", true), Err(invalid()));
    assert_eq!(check_email("@b.c", true), Err(invalid()));
    assert_eq!(check_email("a.b@c", true), Err(invalid()));
    assert_eq!(check_email("a@b.c@d", true), Err(invalid()));
    assert_eq!(check_email("a@b@c.d", true), Ok(()));
    assert_eq!(check_email("a@b.", true), Ok(()));
    assert_eq!(check_email("", true), Err(invalid()));
    assert_eq!(check_email("not-an-email", true), Err(invalid()));
}
