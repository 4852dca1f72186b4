//! The values the service works with once they have been validated.

pub mod subscriber_email;

pub use subscriber_email::SubscriberEmail;
