use newsletter::domain::{NewSubscriber, Reason, SubscriberEmail, SubscriberName, ValidationError};
use newsletter::routes::FormData;

fn form(name: &str, email: &str) -> FormData {
    FormData::new(email.to_string(), name.to_string())
}

fn rejected(reason: Reason) -> ValidationError {
    ValidationError { reason }
}

#[test]
fn a_valid_form_becomes_a_subscriber() {
    let subscriber = NewSubscriber::try_from(form("le guin", "ursula_le_guin@gmail.com")).unwrap();
    assert_eq!(subscriber.name.as_ref(), "le guin");
    assert_eq!(subscriber.email.as_ref(), "ursula_le_guin@gmail.com");
    assert_eq!(subscriber.name().as_ref(), "le guin");
    assert_eq!(subscriber.email().as_ref(), "ursula_le_guin@gmail.com");
}

#[test]
fn a_form_keeps_its_fields_apart() {
    let raw = form("le guin", "ursula_le_guin@gmail.com");
    assert_eq!(raw.name, "le guin");
    assert_eq!(raw.email, "ursula_le_guin@gmail.com");
}

#[test]
fn a_subscriber_is_made_of_its_two_parts() {
    let name = SubscriberName::parse("Ursula Le Guin".to_string()).unwrap();
    let email = SubscriberEmail::parse("ursula_le_guin@gmail.com".to_string()).unwrap();
    let subscriber = NewSubscriber::new(name, email);
    assert_eq!(subscriber.name.as_ref(), "Ursula Le Guin");
    assert_eq!(subscriber.email.as_ref(), "ursula_le_guin@gmail.com");
}

#[test]
fn a_form_with_a_broken_name_is_rejected_for_the_name() {
    let converted = NewSubscriber::try_from(form("", "ursula_le_guin@gmail.com"));
    assert_eq!(converted.unwrap_err(), rejected(Reason::Empty));
    let converted = NewSubscriber::try_from(form("le <guin>", "ursula_le_guin@gmail.com"));
    assert_eq!(converted.unwrap_err(), rejected(Reason::ForbiddenCharacters));
    let converted = NewSubscriber::try_from(form(&"g".repeat(257), "ursula_le_guin@gmail.com"));
    assert_eq!(converted.unwrap_err(), rejected(Reason::TooLong));
}

#[test]
fn a_form_with_a_broken_email_is_rejected_for_the_email() {
    let converted = NewSubscriber::try_from(form("le guin", "not-an-email"));
    assert_eq!(converted.unwrap_err(), rejected(Reason::InvalidSyntax));
    let converted = NewSubscriber::try_from(form("le guin", ""));
    assert_eq!(converted.unwrap_err(), rejected(Reason::InvalidSyntax));
}

#[test]
fn the_name_is_judged_before_the_email() {
    let converted = NewSubscriber::try_from(form("   ", "not-an-email"));
    assert_eq!(converted.unwrap_err(), rejected(Reason::Empty));
    let converted = NewSubscriber::try_from(form("{}", ""));
    assert_eq!(converted.unwrap_err(), rejected(Reason::ForbiddenCharacters));
}

#[test]
fn try_into_converts_like_try_from() {
    let converted: Result<NewSubscriber, ValidationError> =
        form("le guin", "ursula_le_guin@gmail.com").try_into();
    assert_eq!(converted.unwrap().email.as_ref(), "ursula_le_guin@gmail.com");
    let converted: Result<NewSubscriber, ValidationError> = form("le guin", "ursula").try_into();
    assert_eq!(converted.unwrap_err(), rejected(Reason::InvalidSyntax));
}
