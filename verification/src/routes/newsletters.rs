//! Publishing a newsletter issue to every confirmed subscriber.

pub mod delivery;
pub mod guarantees;
pub mod publish;
pub mod subscribers;

pub use delivery::DeliveryOutcome;
pub use publish::publish_newsletter;
pub use subscribers::get_confirmed_subscribers;
pub use subscribers::ConfirmedSubscriber;

use crate::authentication::basic::BasicAuthError;
use crate::authentication::credentials::AuthError;
use crate::authentication::credentials::AuthFailure;
use vstd::prelude::*;
use vstd::string::StringExecFns;

verus! {

/// A newsletter issue as it is submitted for publication.
#[derive(Debug, PartialEq, Eq)]
pub struct BodyData {
    pub title: String,
    pub content: Content,
}

/// The two renderings of an issue.
#[derive(Debug, PartialEq, Eq)]
pub struct Content {
    pub html: String,
    pub text: String,
}

/// Why an issue was not published to everyone.
#[derive(Debug, PartialEq, Eq)]
pub enum PublishError {
    /// The request did not come from a known user. Holds the cause, for the
    /// log only.
    AuthError(String),
    /// Something failed on the way. Holds the cause, for the log only.
    UnexpectedError(String),
}

/// A `PublishError` with its cause as a sequence of characters.
pub enum PublishFailure {
    AuthError(Seq<char>),
    UnexpectedError(Seq<char>),
}

impl View for PublishError {
    type V = PublishFailure;

    open spec fn view(&self) -> PublishFailure {
        match self {
            PublishError::AuthError(cause) => PublishFailure::AuthError(cause@),
            PublishError::UnexpectedError(cause) => PublishFailure::UnexpectedError(cause@),
        }
    }
}

/// The status and headers of the response to a failed publish request.
#[derive(Debug, PartialEq, Eq)]
pub struct ErrorResponse {
    /// The HTTP status code.
    pub status: u16,
    /// The value of the `WWW-Authenticate` header, where one is sent.
    pub www_authenticate: Option<String>,
}

impl PublishFailure {
    /// The text that describes the failure.
    pub open spec fn message(self) -> Seq<char> {
        match self {
            PublishFailure::AuthError(_) => "Authentication failed"@,
            PublishFailure::UnexpectedError(cause) => cause,
        }
    }

    /// The status code of the response.
    pub open spec fn status(self) -> int {
        match self {
            PublishFailure::AuthError(_) => 401,
            PublishFailure::UnexpectedError(_) => 500,
        }
    }

    /// The challenge sent with the response, if any.
    pub open spec fn challenge(self) -> Option<Seq<char>> {
        match self {
            PublishFailure::AuthError(_) => Some("Basic realm=\"publish\""@),
            PublishFailure::UnexpectedError(_) => None,
        }
    }

    /// The publish failure that a failed credential check becomes.
    pub open spec fn from_auth(failure: AuthFailure) -> PublishFailure {
        match failure {
            AuthFailure::InvalidCredentials => PublishFailure::AuthError(failure.message()),
            AuthFailure::UnexpectedError(cause) => PublishFailure::UnexpectedError(cause),
        }
    }
}

impl PublishError {
    /// Describes the error.
    pub fn message(&self) -> (text: String)
        ensures
            text@ == self@.message(),
    {
        match self {
            PublishError::AuthError(_) => String::from_str("Authentication failed"),
            PublishError::UnexpectedError(cause) => cause.clone(),
        }
    }

    /// The response that reports the error: `401` with a Basic challenge
    /// for an authentication error, a bare `500` for anything else.
    pub fn error_response(&self) -> (response: ErrorResponse)
        ensures
            response.status == self@.status(),
            match self@.challenge() {
                Some(challenge) => response.www_authenticate matches Some(value) && value@
                    == challenge,
                None => response.www_authenticate is None,
            },
    {
        match self {
            PublishError::AuthError(_) => ErrorResponse {
                status: 401,
                www_authenticate: Some(String::from_str("Basic realm=\"publish\"")),
            },
            PublishError::UnexpectedError(_) => ErrorResponse {
                status: 500,
                www_authenticate: None,
            },
        }
    }

    /// An authentication error for a request without usable credentials.
    pub fn from_header(error: BasicAuthError) -> (converted: PublishError)
        ensures
            converted@ == PublishFailure::AuthError(error.text()),
    {
        PublishError::AuthError(error.message())
    }

    /// Turns a failed credential check into a publish error: refused
    /// credentials are an authentication error, anything else is
    /// unexpected.
    pub fn from_auth(error: AuthError) -> (converted: PublishError)
        ensures
            converted@ == PublishFailure::from_auth(error@),
    {
        match error {
            AuthError::InvalidCredentials => PublishError::AuthError(error.message()),
            AuthError::UnexpectedError(cause) => PublishError::UnexpectedError(cause),
        }
    }
}

} // verus!
