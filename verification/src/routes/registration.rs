//! One sign-up request, step by step.
//!
//! A request is received, validated, stored and, if the delivery service
//! plays along, welcomed by email. Validation and storage can each end the
//! request with a failure. The welcome email cannot: a request that was
//! stored completes whether or not the email went out.

use vstd::prelude::*;
use crate::domain::new_subscriber::{NewSubscriber, SubscriberView};
use crate::domain::subscriber_email::is_valid_email;
use crate::domain::subscriber_name::is_valid_name;
use crate::domain::validation_error::{reason_text, Reason, ValidationError};
use crate::email_client::NotificationError;
use crate::routes::subscriptions::{form_defect, FormData, FormView};

verus! {

/// Why a subscriber was not stored.
#[derive(Clone, Copy, Debug, PartialEq, Eq, Structural)]
pub enum StorageError {
    /// The store refused the record, for instance as a duplicate.
    ConstraintViolation,
    /// The store could not be reached.
    ConnectionFailure,
    /// The store did not answer in time.
    Timeout,
    /// Anything else.
    Other,
}

/// How a sign-up request ended.
#[derive(Clone, Copy, Debug, PartialEq, Eq, Structural)]
pub enum RegistrationOutcome {
    /// The subscriber was stored.
    Completed,
    /// The form did not pass validation.
    Rejected { reason: Reason },
    /// The form was valid, but the subscriber could not be stored.
    StorageFailed,
}

/// The HTTP status that reports `outcome` to the client.
pub open spec fn status_of(outcome: RegistrationOutcome) -> u16 {
    match outcome {
        RegistrationOutcome::Completed => 200,
        RegistrationOutcome::Rejected { .. } => 400,
        RegistrationOutcome::StorageFailed => 500,
    }
}

/// The body of the response that reports `outcome`: the reason of a
/// rejection, and nothing otherwise.
pub open spec fn body_of(outcome: RegistrationOutcome) -> Seq<char> {
    match outcome {
        RegistrationOutcome::Rejected { reason } => reason_text(reason),
        _ => Seq::empty(),
    }
}

impl RegistrationOutcome {
    /// The HTTP status of the response: 200 for a completed request, 400
    /// for a rejected form, 500 for a storage failure.
    pub fn status_code(&self) -> (status: u16)
        ensures
            status == status_of(*self),
    {
        match self {
            RegistrationOutcome::Completed => 200,
            RegistrationOutcome::Rejected { .. } => 400,
            RegistrationOutcome::StorageFailed => 500,
        }
    }

    /// The body of the response: the reason of a rejection, and nothing
    /// otherwise.
    pub fn body(&self) -> (body: String)
        ensures
            body@ == body_of(*self),
    {
        match self {
            RegistrationOutcome::Rejected { reason } => ValidationError::new(*reason).message(),
            _ => String::new(),
        }
    }
}

/// What the outside world reports to a request.
#[derive(Debug)]
pub enum RegistrationEvent {
    /// The form arrived.
    Submitted(FormData),
    /// The store answered the insert.
    Persisted(Result<(), StorageError>),
    /// The attempt to send the welcome email ended.
    Notified(Result<(), NotificationError>),
}

/// What a request asks of the outside world next.
#[derive(Clone, Copy, Debug, PartialEq, Eq, Structural)]
pub enum RegistrationAction {
    /// Hand over the submitted form.
    Receive,
    /// Insert the validated subscriber into the store.
    Persist,
    /// Send the welcome email to the stored subscriber.
    Notify,
    /// Answer the client; the request is over.
    Respond(RegistrationOutcome),
}

/// How far a request has come.
#[derive(Debug)]
pub enum RegistrationState {
    /// Nothing has been looked at yet.
    Received,
    /// The form passed validation; the subscriber is about to be stored.
    Validated(NewSubscriber),
    /// The subscriber is stored; the welcome email is about to be sent.
    Stored(NewSubscriber),
    /// The request is over and the subscriber is stored. `notified` tells
    /// whether the welcome email went out.
    Completed { notified: bool },
    /// The request is over: the form did not pass validation.
    Rejected(ValidationError),
    /// The request is over: the subscriber could not be stored.
    StorageFailed(StorageError),
}

/// An event, with texts in place of strings.
pub enum EventView {
    Submitted(FormView),
    Persisted(Result<(), StorageError>),
    Notified(Result<(), NotificationError>),
}

/// A state, with texts in place of strings.
pub enum StateView {
    Received,
    Validated(SubscriberView),
    Stored(SubscriberView),
    Completed { notified: bool },
    Rejected(ValidationError),
    StorageFailed(StorageError),
}

impl View for RegistrationEvent {
    type V = EventView;

    open spec fn view(&self) -> EventView {
        match self {
            RegistrationEvent::Submitted(form) => EventView::Submitted(form@),
            RegistrationEvent::Persisted(result) => EventView::Persisted(*result),
            RegistrationEvent::Notified(result) => EventView::Notified(*result),
        }
    }
}

impl View for RegistrationState {
    type V = StateView;

    open spec fn view(&self) -> StateView {
        match self {
            RegistrationState::Received => StateView::Received,
            RegistrationState::Validated(subscriber) => StateView::Validated(subscriber@),
            RegistrationState::Stored(subscriber) => StateView::Stored(subscriber@),
            RegistrationState::Completed { notified } => StateView::Completed {
                notified: *notified,
            },
            RegistrationState::Rejected(error) => StateView::Rejected(*error),
            RegistrationState::StorageFailed(error) => StateView::StorageFailed(*error),
        }
    }
}

/// Whether every subscriber that `state` holds is valid.
pub open spec fn holds_valid_subscriber(state: StateView) -> bool {
    match state {
        StateView::Validated(subscriber) | StateView::Stored(subscriber) => {
            is_valid_name(subscriber.name) && is_valid_email(subscriber.email)
        },
        _ => true,
    }
}

/// How a request in `state` ended, if it is over.
pub open spec fn outcome_of(state: StateView) -> Option<RegistrationOutcome> {
    match state {
        StateView::Completed { .. } => Some(RegistrationOutcome::Completed),
        StateView::Rejected(error) => Some(RegistrationOutcome::Rejected { reason: error.reason }),
        StateView::StorageFailed(_) => Some(RegistrationOutcome::StorageFailed),
        _ => None,
    }
}

/// What a request in `state` asks of the outside world.
pub open spec fn pending_action(state: StateView) -> RegistrationAction {
    match state {
        StateView::Received => RegistrationAction::Receive,
        StateView::Validated(_) => RegistrationAction::Persist,
        StateView::Stored(_) => RegistrationAction::Notify,
        _ => RegistrationAction::Respond(outcome_of(state)->Some_0),
    }
}

/// The state that follows `state` when `event` is reported.
///
/// A received request takes the form and is validated or rejected. A
/// validated one takes the store's answer and is stored or fails. A stored
/// one takes the end of the notification attempt and completes, however
/// the attempt ended. Any other event leaves the state as it is.
pub open spec fn next_state(state: StateView, event: EventView) -> StateView {
    match (state, event) {
        (StateView::Received, EventView::Submitted(form)) => match form_defect(
            form.name,
            form.email,
        ) {
            Some(reason) => StateView::Rejected(ValidationError { reason }),
            None => StateView::Validated(SubscriberView { name: form.name, email: form.email }),
        },
        (StateView::Validated(subscriber), EventView::Persisted(Ok(_))) => StateView::Stored(
            subscriber,
        ),
        (StateView::Validated(_), EventView::Persisted(Err(error))) => StateView::StorageFailed(
            error,
        ),
        (StateView::Stored(_), EventView::Notified(result)) => StateView::Completed {
            notified: result is Ok,
        },
        _ => state,
    }
}

impl RegistrationState {
    /// The state of a request that has just come in.
    pub fn new() -> (state: RegistrationState)
        ensures
            state@ == StateView::Received,
    {
        RegistrationState::Received
    }

    /// The subscriber that is being stored or notified, if the request is
    /// at one of these two steps. The subscriber is valid.
    pub fn subscriber(&self) -> (subscriber: Option<&NewSubscriber>)
        ensures
            match self@ {
                StateView::Validated(view) | StateView::Stored(view) => {
                    &&& subscriber is Some
                    &&& subscriber->Some_0@ == view
                },
                _ => subscriber is None,
            },
            holds_valid_subscriber(self@),
    {
        match self {
            RegistrationState::Validated(subscriber) | RegistrationState::Stored(subscriber) => {
                proof {
                    use_type_invariant(&subscriber.name);
                    use_type_invariant(&subscriber.email);
                }
                Some(subscriber)
            },
            _ => None,
        }
    }

    /// How the request ended, if it is over.
    pub fn outcome(&self) -> (outcome: Option<RegistrationOutcome>)
        ensures
            outcome == outcome_of(self@),
    {
        match self {
            RegistrationState::Completed { .. } => Some(RegistrationOutcome::Completed),
            RegistrationState::Rejected(error) => Some(
                RegistrationOutcome::Rejected { reason: error.reason },
            ),
            RegistrationState::StorageFailed(_) => Some(RegistrationOutcome::StorageFailed),
            _ => None,
        }
    }

    /// What the request asks of the outside world in this state.
    pub fn action(&self) -> (action: RegistrationAction)
        ensures
            action == pending_action(self@),
    {
        match self {
            RegistrationState::Received => RegistrationAction::Receive,
            RegistrationState::Validated(_) => RegistrationAction::Persist,
            RegistrationState::Stored(_) => RegistrationAction::Notify,
            RegistrationState::Completed { .. } => RegistrationAction::Respond(
                RegistrationOutcome::Completed,
            ),
            RegistrationState::Rejected(error) => RegistrationAction::Respond(
                RegistrationOutcome::Rejected { reason: error.reason },
            ),
            RegistrationState::StorageFailed(_) => RegistrationAction::Respond(
                RegistrationOutcome::StorageFailed,
            ),
        }
    }
}

/// Whether a request in `state` is over.
pub open spec fn is_over(state: StateView) -> bool {
    outcome_of(state) is Some
}

/// A failed welcome email changes nothing for the client: a stored request
/// completes with status 200 however the notification attempt ended, and
/// all that is left to do is to respond.
pub proof fn lemma_notification_is_isolated(
    subscriber: SubscriberView,
    result: Result<(), NotificationError>,
)
    ensures
        ({
            let next = next_state(StateView::Stored(subscriber), EventView::Notified(result));
            &&& next == StateView::Completed { notified: result is Ok }
            &&& outcome_of(next) == Some(RegistrationOutcome::Completed)
            &&& pending_action(next) == RegistrationAction::Respond(RegistrationOutcome::Completed)
            &&& status_of(RegistrationOutcome::Completed) == 200
        }),
{
}

/// A request that is over stays as it is, whatever is reported to it, and
/// asks for nothing but the response.
pub proof fn lemma_over_is_final(state: StateView, event: EventView)
    requires
        is_over(state),
    ensures
        next_state(state, event) == state,
        pending_action(state) == RegistrationAction::Respond(outcome_of(state)->Some_0),
{
}

/// No step brings an invalid subscriber into a request: if every
/// subscriber that the state holds is valid, so is every subscriber that the
/// next state holds.
pub proof fn lemma_step_keeps_subscribers_valid(state: StateView, event: EventView)
    requires
        holds_valid_subscriber(state),
    ensures
        holds_valid_subscriber(next_state(state, event)),
{
}

/// A form is stored only if it is valid as a whole: a received request asks
/// for the insert exactly when both fields pass validation, and is rejected
/// with a client error otherwise.
pub proof fn lemma_persist_only_when_valid(form: FormView)
    ensures
        ({
            let next = next_state(StateView::Received, EventView::Submitted(form));
            let valid = is_valid_name(form.name) && is_valid_email(form.email);
            &&& valid <==> pending_action(next) == RegistrationAction::Persist
            &&& !valid <==> outcome_of(next) is Some && status_of(outcome_of(next)->Some_0) == 400
            &&& !valid ==> outcome_of(next)->Some_0 == (RegistrationOutcome::Rejected {
                reason: form_defect(form.name, form.email)->Some_0,
            })
        }),
{
}

/// A storage failure ends the request with a server error, whatever kind of
/// failure it is, and no welcome email is asked for.
pub proof fn lemma_storage_failure_is_final(subscriber: SubscriberView, error: StorageError)
    ensures
        ({
            let next = next_state(
                StateView::Validated(subscriber),
                EventView::Persisted(Err(error)),
            );
            &&& next == StateView::StorageFailed(error)
            &&& pending_action(next) == RegistrationAction::Respond(
                RegistrationOutcome::StorageFailed,
            )
            &&& status_of(RegistrationOutcome::StorageFailed) == 500
        }),
{
}

} // verus!
