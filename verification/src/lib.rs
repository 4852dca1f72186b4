//! Verified core of a newsletter service: credential checks, signed error
//! messages that survive a redirect, and a broadcast that isolates the
//! failure of one recipient from the rest of the batch.

pub mod authentication;
pub mod configuration;
pub mod domain;
pub mod encoding;
pub mod mac;
pub mod routes;
pub mod secret;
pub mod text;
