//! Logging in: the form, and what happens when it is submitted.

pub mod get;
pub mod post;
pub mod query;

pub use get::login_form;
pub use get::QueryParams;
pub use post::login;
pub use post::FormData;
pub use post::LoginError;
