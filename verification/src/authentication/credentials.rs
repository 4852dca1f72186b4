//! The values that take part in a credential check.

use crate::secret::Secret;
use uuid::Uuid;
use vstd::prelude::*;
use vstd::string::StringExecFns;

verus! {

/// The identifier of a user, a `uuid::Uuid`. It is carried through unread.
#[verifier::external_type_specification]
#[verifier::external_body]
pub struct ExUuid(Uuid);

/// A claimed identity: a user name and the password offered for it.
#[derive(Debug)]
pub struct Credentials {
    pub username: String,
    pub password: Secret,
}

/// What the credential store holds for one user.
#[derive(Debug)]
pub struct StoredCredentials {
    pub user_id: Uuid,
    pub password_hash: Secret,
}

/// Why a credential check did not name a user.
#[derive(Debug, PartialEq, Eq)]
pub enum AuthError {
    /// The user is unknown or the password is wrong; the value does not say
    /// which.
    InvalidCredentials,
    /// The check itself could not be carried out.
    UnexpectedError(String),
}

/// An `AuthError` with its text as a sequence of characters.
pub enum AuthFailure {
    InvalidCredentials,
    UnexpectedError(Seq<char>),
}

impl View for AuthError {
    type V = AuthFailure;

    open spec fn view(&self) -> AuthFailure {
        match self {
            AuthError::InvalidCredentials => AuthFailure::InvalidCredentials,
            AuthError::UnexpectedError(cause) => AuthFailure::UnexpectedError(cause@),
        }
    }
}

impl AuthFailure {
    /// The text shown for the failure.
    pub open spec fn message(self) -> Seq<char> {
        match self {
            AuthFailure::InvalidCredentials => "Invalid credentials."@,
            AuthFailure::UnexpectedError(cause) => cause,
        }
    }
}

impl AuthError {
    /// The text shown for the error.
    pub fn message(&self) -> (text: String)
        ensures
            text@ == self@.message(),
    {
        match self {
            AuthError::InvalidCredentials => String::from_str("Invalid credentials."),
            AuthError::UnexpectedError(cause) => cause.clone(),
        }
    }
}

} // verus!
