//! The decisions behind each HTTP route, free of the HTTP framework.

pub mod login;
pub mod newsletters;
