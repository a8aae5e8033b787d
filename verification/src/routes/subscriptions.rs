//! Signing up: from the submitted form to the stored subscriber.

use vstd::prelude::*;
use vstd::std_specs::convert::TryFromSpecImpl;
use chrono::Utc;
use uuid::Uuid;
use crate::domain::new_subscriber::NewSubscriber;
use crate::domain::subscriber_email::{is_valid_email, SubscriberEmail};
use crate::domain::subscriber_name::{grapheme_count, is_valid_name, name_defect, SubscriberName};
use crate::domain::validation_error::{Reason, ValidationError};
use crate::email_client::{basic_authorization, EmailClient, OutboundEmail, METHOD};
use crate::routes::registration::{
    holds_valid_subscriber, next_state, pending_action, RegistrationAction, RegistrationEvent,
    RegistrationState,
};

verus! {

/// The two fields of the sign-up form, as they were submitted. Nothing is
/// known of either: it may be empty, malformed or oversized.
#[derive(Debug)]
pub struct FormData {
    pub email: String,
    pub name: String,
}

/// The rule that a form with these two texts breaks first, if any. The name
/// is judged before the address, and a broken name hides what the address
/// is like.
pub open spec fn form_defect(name: Seq<char>, email: Seq<char>) -> Option<Reason> {
    match name_defect(name, grapheme_count(name)) {
        Some(reason) => Some(reason),
        None => if is_valid_email(email) {
            None
        } else {
            Some(Reason::InvalidSyntax)
        },
    }
}

/// What a submitted form is made of: the text of its two fields.
pub struct FormView {
    pub name: Seq<char>,
    pub email: Seq<char>,
}

impl View for FormData {
    type V = FormView;

    open spec fn view(&self) -> FormView {
        FormView { name: self.name@, email: self.email@ }
    }
}

/// The name is judged first: a form with a broken name is rejected for the
/// name's defect, whatever its address is like.
pub proof fn lemma_name_is_judged_first(name: Seq<char>, email: Seq<char>)
    requires
        !is_valid_name(name),
    ensures
        form_defect(name, email) == name_defect(name, grapheme_count(name)),
        form_defect(name, email) is Some,
{
}

/// An empty field is never let through: a form whose name or address is
/// empty is rejected.
pub proof fn lemma_empty_field_is_rejected(name: Seq<char>, email: Seq<char>)
    requires
        name.len() == 0 || email.len() == 0,
    ensures
        form_defect(name, email) is Some,
        name.len() == 0 ==> form_defect(name, email) == Some(Reason::Empty),
{
}

impl FormData {
    /// A form with the given fields.
    pub fn new(email: String, name: String) -> (form: FormData)
        ensures
            form.email == email,
            form.name == name,
    {
        FormData { email, name }
    }
}

impl TryFrom<FormData> for NewSubscriber {
    type Error = ValidationError;

    /// Validates the form: first the name, then the address. The first
    /// failure is returned and the other field is not looked at.
    fn try_from(value: FormData) -> (converted: Result<Self, Self::Error>)
        ensures
            match form_defect(value.name@, value.email@) {
                Some(reason) => converted == Err::<NewSubscriber, ValidationError>(
                    ValidationError { reason },
                ),
                None => {
                    &&& converted is Ok
                    &&& converted->Ok_0.name@ == value.name@
                    &&& converted->Ok_0.email@ == value.email@
                },
            },
    {
        let name = match SubscriberName::parse(value.name) {
            Ok(name) => name,
            Err(error) => return Err(error),
        };
        let email = match SubscriberEmail::parse(value.email) {
            Ok(email) => email,
            Err(error) => return Err(error),
        };
        Ok(NewSubscriber { email, name })
    }
}

impl TryFromSpecImpl<FormData> for NewSubscriber {
    open spec fn obeys_try_from_spec() -> bool {
        true
    }

    open spec fn try_from_spec(v: FormData) -> Result<Self, Self::Error> {
        match form_defect(v.name@, v.email@) {
            Some(reason) => Err(ValidationError { reason }),
            None => Ok(
                NewSubscriber {
                    email: SubscriberEmail::holding(v.email),
                    name: SubscriberName::holding(v.name),
                },
            ),
        }
    }
}

/// Moves a sign-up request one step on: takes the request's state and what
/// the outside world reports, and returns the state that follows together
/// with what the request asks for next.
///
/// The caller performs what is asked for and reports back with the matching
/// event, until it is asked to respond. A failed welcome email is reported
/// like a sent one, and the request completes either way.
pub fn subscribe(state: RegistrationState, event: RegistrationEvent) -> (moved: (
    RegistrationState,
    RegistrationAction,
))
    ensures
        moved.0@ == next_state(state@, event@),
        moved.1 == pending_action(moved.0@),
        holds_valid_subscriber(moved.0@),
{
    let next = match state {
        RegistrationState::Received => match event {
            RegistrationEvent::Submitted(form) => match NewSubscriber::try_from(form) {
                Ok(subscriber) => RegistrationState::Validated(subscriber),
                Err(error) => RegistrationState::Rejected(error),
            },
            _ => RegistrationState::Received,
        },
        RegistrationState::Validated(subscriber) => match event {
            RegistrationEvent::Persisted(Ok(_)) => RegistrationState::Stored(subscriber),
            RegistrationEvent::Persisted(Err(error)) => RegistrationState::StorageFailed(error),
            _ => RegistrationState::Validated(subscriber),
        },
        RegistrationState::Stored(subscriber) => match event {
            RegistrationEvent::Notified(result) => RegistrationState::Completed {
                notified: result.is_ok(),
            },
            _ => RegistrationState::Stored(subscriber),
        },
        over => over,
    };
    proof {
        match &next {
            RegistrationState::Validated(subscriber) | RegistrationState::Stored(subscriber) => {
                use_type_invariant(&subscriber.name);
                use_type_invariant(&subscriber.email);
            },
            _ => {},
        }
    }
    let action = next.action();
    (next, action)
}

/// The status under which every subscriber is stored.
pub const CONFIRMED: &'static str = "confirmed";

/// The statement that stores one record. Its five parameters are the
/// fields of a [`SubscriptionRecord`], in the order in which it names the
/// columns.
pub const INSERT_SUBSCRIPTION: &'static str =
    "INSERT INTO subscriptions (id, email, name, subscribed_at, status) VALUES ($1, $2, $3, $4, $5)";

/// One row of the table of subscriptions.
#[derive(Debug)]
pub struct SubscriptionRecord<'a> {
    /// The identifier of the request that stores the row, a UUID as a
    /// number.
    pub id: u128,
    pub email: &'a str,
    pub name: &'a str,
    /// Microseconds since the start of 1970, UTC.
    pub subscribed_at: i64,
    pub status: &'static str,
}

/// Whether `id` has the version and variant bits of a random UUID.
pub open spec fn is_random_uuid(id: u128) -> bool {
    id & 0x0000_0000_0000_f000_c000_0000_0000_0000
        == 0x0000_0000_0000_4000_8000_0000_0000_0000
}

/// Draws a request identifier with `uuid::Uuid::new_v4` and hands it out as
/// a number with `Uuid::as_u128`. Every identifier drawn so is a random
/// UUID by its version and variant bits; nothing is claimed of the other
/// bits. The draw panics where the operating system gives no random bytes.
#[verifier::external_body]
fn fresh_request_id() -> (id: u128)
    ensures
        is_random_uuid(id),
{
    Uuid::new_v4().as_u128()
}

/// Reads the clock with `chrono::Utc::now` and hands the time out in
/// microseconds since the start of 1970 with `DateTime::timestamp_micros`.
/// Nothing is claimed of the time. The reading panics where the system
/// clock stands before 1970.
#[verifier::external_body]
fn current_time() -> (micros: i64) {
    Utc::now().timestamp_micros()
}

impl<'a> SubscriptionRecord<'a> {
    /// The row that stores `subscriber` under the request identifier `id`
    /// at the time `subscribed_at`. Its status is `confirmed`.
    pub fn new(subscriber: &'a NewSubscriber, id: u128, subscribed_at: i64) -> (record:
        SubscriptionRecord<'a>)
        ensures
            record.id == id,
            record.email@ == subscriber@.email,
            record.name@ == subscriber@.name,
            record.subscribed_at == subscribed_at,
            record.status@ == CONFIRMED@,
            is_valid_email(record.email@),
            is_valid_name(record.name@),
    {
        SubscriptionRecord {
            id,
            email: subscriber.email.as_ref(),
            name: subscriber.name.as_ref(),
            subscribed_at,
            status: CONFIRMED,
        }
    }
}

/// Prepares the insert of `new_subscriber`: tags it with a fresh request
/// identifier and the current time, and returns the row that goes with
/// [`INSERT_SUBSCRIPTION`]. Each call draws a new identifier.
pub fn insert_subscriber<'a>(new_subscriber: &'a NewSubscriber) -> (record: SubscriptionRecord<'a>)
    ensures
        is_random_uuid(record.id),
        record.email@ == new_subscriber@.email,
        record.name@ == new_subscriber@.name,
        record.status@ == CONFIRMED@,
        is_valid_email(record.email@),
        is_valid_name(record.name@),
{
    let id: u128 = fresh_request_id();
    let subscribed_at: i64 = current_time();
    SubscriptionRecord::new(new_subscriber, id, subscribed_at)
}

/// The subject of the welcome email.
pub const WELCOME_SUBJECT: &'static str = "welcom";

/// The HTML body of the welcome email.
pub const WELCOME_HTML: &'static str = "welcoem";

/// The plain text body of the welcome email.
pub const WELCOME_TEXT: &'static str = "welcome";

/// Prepares the welcome email for `subscriber`. Its content is the same for
/// every subscriber.
pub fn welcome_email<'a>(email_client: &'a EmailClient, subscriber: &'a NewSubscriber) -> (outbound:
    OutboundEmail<'a>)
    ensures
        outbound.method@ == METHOD@,
        outbound.url@ == email_client@.base_url,
        outbound.authorization@ == basic_authorization(email_client@.token),
        outbound.body.from@ == email_client@.sender,
        outbound.body.to@ == subscriber@.email,
        outbound.body.subject@ == WELCOME_SUBJECT@,
        outbound.body.html_body@ == WELCOME_HTML@,
        outbound.body.text@ == WELCOME_TEXT@,
{
    email_client.send_email(&subscriber.email, WELCOME_SUBJECT, WELCOME_HTML, WELCOME_TEXT)
}

} // verus!
