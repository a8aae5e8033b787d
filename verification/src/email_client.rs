//! The client of the email delivery service.
//!
//! The service takes an HTTP POST with a JSON body and answers with a
//! status. This module says what is posted and how an answer is read; it
//! performs no request itself.

use vstd::prelude::*;
use vstd::string::StringExecFns;
use std::time::Duration;
use secrecy::{ExposeSecret, Secret};
use crate::domain::subscriber_email::{is_valid_email, SubscriberEmail};

verus! {

/// The token that authorizes requests to the delivery service. It is held
/// as a `secrecy::Secret`, so it is wiped from memory when dropped and never
/// shows in debug output.
#[verifier::external_body]
#[derive(Debug)]
pub struct AuthorizationToken {
    secret: Secret<String>,
}

/// The text that a token holds.
pub uninterp spec fn token_text(token: AuthorizationToken) -> Seq<char>;

/// Wraps `text` with `secrecy::Secret::new`, which takes ownership of the
/// text and keeps it unchanged.
#[verifier::external_body]
fn seal(text: String) -> (token: AuthorizationToken)
    ensures
        token_text(token) == text@,
{
    AuthorizationToken { secret: Secret::new(text) }
}

/// Reads the token with `secrecy::ExposeSecret::expose_secret`, which hands
/// out a reference to the text that the secret was made of.
#[verifier::external_body]
fn unseal(token: &AuthorizationToken) -> (text: &str)
    ensures
        text@ == token_text(*token),
{
    token.secret.expose_secret().as_str()
}

impl AuthorizationToken {
    /// A token that holds `text`.
    pub fn new(text: String) -> (token: AuthorizationToken)
        ensures
            token_text(token) == text@,
    {
        seal(text)
    }
}

/// Why a welcome email was not delivered.
#[derive(Clone, Copy, Debug, PartialEq, Eq, Structural)]
pub enum NotificationError {
    /// The service answered with a status outside 200..=299.
    Refused { status: u16 },
    /// No answer came within the client's timeout.
    TimedOut,
    /// The service could not be reached.
    Unreachable,
}

/// The JSON body of a send request. On the wire its fields are named
/// `From`, `To`, `Subject`, `HtmlBody` and `Text`.
#[derive(Debug)]
pub struct SendEmailRequest<'a> {
    pub from: &'a str,
    pub to: &'a str,
    pub subject: &'a str,
    pub html_body: &'a str,
    pub text: &'a str,
}

/// The fields of `request` as they go on the wire: each name with its value,
/// in the order `From`, `To`, `Subject`, `HtmlBody`, `Text`.
pub open spec fn wire_fields(request: SendEmailRequest<'_>) -> Seq<(Seq<char>, Seq<char>)> {
    seq![
        ("From"@, request.from@),
        ("To"@, request.to@),
        ("Subject"@, request.subject@),
        ("HtmlBody"@, request.html_body@),
        ("Text"@, request.text@),
    ]
}

impl<'a> SendEmailRequest<'a> {
    /// The fields of the body under their names on the wire.
    pub fn fields(&self) -> (pairs: Vec<(&'static str, &'a str)>)
        ensures
            pairs@.len() == 5,
            forall|i: int|
                0 <= i < 5 ==> (#[trigger] pairs@[i].0@, pairs@[i].1@) == wire_fields(*self)[i],
    {
        let pairs = vec![
            ("From", self.from),
            ("To", self.to),
            ("Subject", self.subject),
            ("HtmlBody", self.html_body),
            ("Text", self.text),
        ];
        pairs
    }
}

/// The HTTP method of every request to the delivery service.
pub const METHOD: &'static str = "POST";

/// The name of the header that carries the token.
pub const AUTHORIZATION_HEADER: &'static str = "Authorization";

/// One request to the delivery service, ready to be posted.
pub struct OutboundEmail<'a> {
    /// The HTTP method, which is [`METHOD`].
    pub method: &'static str,
    /// Where the request is posted.
    pub url: &'a str,
    /// The value of the [`AUTHORIZATION_HEADER`].
    pub authorization: String,
    /// The body.
    pub body: SendEmailRequest<'a>,
}

/// The value of the `Authorization` header for a token that holds `token`.
pub open spec fn basic_authorization(token: Seq<char>) -> Seq<char> {
    "Basic "@ + token
}

/// Whether the delivery service accepted a request that it answered with
/// `status`.
pub open spec fn is_success(status: u16) -> bool {
    200 <= status <= 299
}

/// What a client is made of: where it posts, in whose name, with which
/// token, and how long it waits.
pub struct EmailClientView {
    pub base_url: Seq<char>,
    pub sender: Seq<char>,
    pub token: Seq<char>,
    pub timeout: Duration,
}

/// The settings of a client of the delivery service.
#[derive(Debug)]
pub struct EmailClient {
    base_url: String,
    sender: SubscriberEmail,
    authorization_token: AuthorizationToken,
    timeout: Duration,
}

impl View for EmailClient {
    type V = EmailClientView;

    closed spec fn view(&self) -> EmailClientView {
        EmailClientView {
            base_url: self.base_url@,
            sender: self.sender@,
            token: token_text(self.authorization_token),
            timeout: self.timeout,
        }
    }
}

impl EmailClient {
    /// A client that posts to `base_url` in the name of `sender`, and gives
    /// up on a request after `timeout`.
    pub fn new(
        base_url: String,
        sender: SubscriberEmail,
        authorization_token: AuthorizationToken,
        timeout: Duration,
    ) -> (client: EmailClient)
        ensures
            client@ == (EmailClientView {
                base_url: base_url@,
                sender: sender@,
                token: token_text(authorization_token),
                timeout,
            }),
    {
        EmailClient { base_url, sender, authorization_token, timeout }
    }

    /// How long a request may take before the client gives up on it.
    pub fn timeout(&self) -> (timeout: Duration)
        ensures
            timeout == self@.timeout,
    {
        self.timeout
    }

    /// Prepares the request that sends one email to `recipient`.
    ///
    /// The request is a POST to the client's base address, carries the token
    /// in its `Authorization` header, and names the client's sender in `From`.
    pub fn send_email<'a>(
        &'a self,
        recipient: &'a SubscriberEmail,
        subject: &'a str,
        html_content: &'a str,
        text: &'a str,
    ) -> (outbound: OutboundEmail<'a>)
        ensures
            outbound.method@ == METHOD@,
            outbound.url@ == self@.base_url,
            outbound.authorization@ == basic_authorization(self@.token),
            outbound.body.from@ == self@.sender,
            outbound.body.to@ == recipient@,
            outbound.body.subject@ == subject@,
            outbound.body.html_body@ == html_content@,
            outbound.body.text@ == text@,
            is_valid_email(outbound.body.from@),
            is_valid_email(outbound.body.to@),
    {
        let authorization = "Basic ".to_owned().concat(unseal(&self.authorization_token));
        OutboundEmail {
            method: METHOD,
            url: self.base_url.as_str(),
            authorization,
            body: SendEmailRequest {
                from: self.sender.as_ref(),
                to: recipient.as_ref(),
                subject,
                html_body: html_content,
                text,
            },
        }
    }

    /// Reads the status that the service answered with: any status from 200
    /// to 299 means that it took the email, any other that it refused.
    pub fn delivery_outcome(status: u16) -> (outcome: Result<(), NotificationError>)
        ensures
            is_success(status) ==> outcome is Ok,
            !is_success(status) ==> outcome == Err::<(), NotificationError>(
                NotificationError::Refused { status },
            ),
    {
        if 200 <= status && status <= 299 {
            Ok(())
        } else {
            Err(NotificationError::Refused { status })
        }
    }
}

} // verus!
