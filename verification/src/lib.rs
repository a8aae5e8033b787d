//! Newsletter sign-up: validated subscriber data and the rules of the
//! registration pipeline, with machine-checked contracts.
//!
//! - [`domain`] holds the validated values: a subscriber's name, email
//!   address, and the pair of both.
//! - [`email_client`] says what is posted to the email delivery service and
//!   how its answer is read.
//! - [`routes`] turns a submitted form into a subscriber and takes a
//!   sign-up request from the form to the response, one step at a time.
//!
//! Nothing here reads a socket, a database or a clock on behalf of the
//! caller, with two exceptions that a stored record needs: a fresh request
//! identifier and the current time.

pub mod domain;
pub mod email_client;
pub mod routes;
