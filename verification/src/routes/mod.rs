//! What the service does with a request.

pub mod registration;
pub mod subscriptions;

pub use registration::{
    RegistrationAction, RegistrationEvent, RegistrationOutcome, RegistrationState, StorageError,
};
pub use subscriptions::FormData;
