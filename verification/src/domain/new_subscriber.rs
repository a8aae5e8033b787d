//! The subscriber: a name and an email address that both passed validation.

use vstd::prelude::*;
use crate::domain::subscriber_email::SubscriberEmail;
use crate::domain::subscriber_name::SubscriberName;

verus! {

/// A subscription request that has passed validation. It is the only shape
/// in which a request reaches storage or the email service.
#[derive(Debug)]
pub struct NewSubscriber {
    pub email: SubscriberEmail,
    pub name: SubscriberName,
}

/// What a subscriber is made of: the text of the name and of the address.
pub struct SubscriberView {
    pub name: Seq<char>,
    pub email: Seq<char>,
}

impl View for NewSubscriber {
    type V = SubscriberView;

    open spec fn view(&self) -> SubscriberView {
        SubscriberView { name: self.name@, email: self.email@ }
    }
}

impl NewSubscriber {
    /// Pairs a valid name with a valid address. This cannot fail.
    pub fn new(name: SubscriberName, email: SubscriberEmail) -> (subscriber: NewSubscriber)
        ensures
            subscriber.name == name,
            subscriber.email == email,
    {
        NewSubscriber { email, name }
    }

    /// The subscriber's name.
    pub fn name(&self) -> (name: &SubscriberName)
        ensures
            *name == self.name,
    {
        &self.name
    }

    /// The subscriber's email address.
    pub fn email(&self) -> (email: &SubscriberEmail)
        ensures
            *email == self.email,
    {
        &self.email
    }
}

} // verus!
