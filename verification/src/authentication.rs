//! Credential verification: who is making a request, decided from a claimed
//! password and a stored, salted password hash.

pub mod basic;
pub mod credentials;
pub mod password;

pub use basic::basic_authentication;
pub use credentials::AuthError;
pub use credentials::Credentials;
pub use credentials::StoredCredentials;
pub use password::validate_credentials;
