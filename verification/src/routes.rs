//! What the service does with the requests it is sent.

pub mod subscriptions;

pub use subscriptions::{insert_subscriber, send_confirmation_email, subscribe, SignUp};
