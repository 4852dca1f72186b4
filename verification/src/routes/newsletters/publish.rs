//! A publish request, from its `Authorization` header to the delivery of
//! the issue.
//!
//! The request passes through three stages, each of which waits for one
//! answer from outside: the stored credentials of the claimed user, the
//! list of confirmed subscribers, and then the transport's answer for each
//! message. A stage can only be reached through the one before it, so no
//! subscriber is read and no message is sent for a request whose
//! credentials were not verified.

use crate::authentication::basic::basic_authentication;
use crate::authentication::basic::basic_credentials;
use crate::authentication::basic::header_view;
use crate::authentication::credentials::Credentials;
use crate::authentication::credentials::StoredCredentials;
use crate::authentication::password::validate_credentials;
use crate::authentication::password::validation;
use crate::routes::newsletters::delivery::begin;
use crate::routes::newsletters::delivery::dispatch_follows;
use crate::routes::newsletters::delivery::Dispatch;
use crate::routes::newsletters::subscribers::directory_of;
use crate::routes::newsletters::subscribers::get_confirmed_subscribers;
use crate::routes::newsletters::BodyData;
use crate::routes::newsletters::PublishError;
use crate::routes::newsletters::PublishFailure;
use crate::secret::secret_text;
use uuid::Uuid;
use vstd::prelude::*;

verus! {

/// A publish request that carries credentials which are not verified yet.
#[derive(Debug)]
pub struct AwaitingCredentials {
    body: BodyData,
    credentials: Credentials,
}

/// A publish request of a verified user.
#[derive(Debug)]
pub struct Authorized {
    body: BodyData,
    user_id: Uuid,
}

impl AwaitingCredentials {
    /// The issue to publish.
    pub closed spec fn content(self) -> BodyData {
        self.body
    }

    /// The credentials the request carries.
    pub closed spec fn claimed(self) -> Credentials {
        self.credentials
    }

    /// The user name to look up in the credential store.
    pub fn username(&self) -> (username: &str)
        ensures
            username@ == self.claimed().username@,
    {
        self.credentials.username.as_str()
    }

    /// Verifies the credentials against what the credential store answered
    /// for the user name. Refused credentials are an authentication error;
    /// a failed lookup or an unreadable stored hash is an unexpected one.
    pub fn verify(self, stored: Result<Option<StoredCredentials>, String>) -> (verified: Result<
        Authorized,
        PublishError,
    >)
        ensures
            match validation(self.claimed(), stored) {
                Ok(user_id) => verified matches Ok(authorized) && authorized.user() == user_id
                    && authorized.content() == self.content(),
                Err(failure) => verified matches Err(error) && error@ == PublishFailure::from_auth(
                    failure,
                ),
            },
    {
        match validate_credentials(self.credentials, stored) {
            Ok(user_id) => Ok(Authorized { body: self.body, user_id }),
            Err(error) => Err(PublishError::from_auth(error)),
        }
    }
}

impl Authorized {
    /// The issue to publish.
    pub closed spec fn content(self) -> BodyData {
        self.body
    }

    /// The user who publishes.
    pub closed spec fn user(self) -> Uuid {
        self.user_id
    }

    /// The user who publishes.
    pub fn user_id(&self) -> (user_id: Uuid)
        ensures
            user_id == self.user(),
    {
        self.user_id
    }

    /// Starts the delivery to the confirmed subscribers, given what the
    /// subscriber directory answered: the stored address of each, or an
    /// error where the list could not be read. Without a list there is
    /// nothing to deliver: the request fails as a whole and no message is
    /// sent.
    pub fn deliver(self, fetched: Result<Vec<String>, String>) -> (started: Result<
        Dispatch,
        PublishError,
    >)
        ensures
            match fetched {
                Ok(rows) => started matches Ok(dispatch) && dispatch_follows(
                    dispatch,
                    self.content(),
                    directory_of(rows@),
                    Seq::empty(),
                ),
                Err(cause) => started matches Err(error) && error@
                    == PublishFailure::UnexpectedError(cause@),
            },
    {
        match fetched {
            Err(cause) => Err(PublishError::UnexpectedError(cause)),
            Ok(rows) => Ok(begin(self.body, get_confirmed_subscribers(rows))),
        }
    }
}

/// Accepts a publish request: reads the credentials from the value of its
/// `Authorization` header, `None` where it has none. A request without
/// usable Basic credentials is refused before any password is compared.
pub fn publish_newsletter(body: BodyData, authorization: Option<&[u8]>) -> (accepted: Result<
    AwaitingCredentials,
    PublishError,
>)
    ensures
        match basic_credentials(header_view(authorization)) {
            Ok((username, password)) => accepted matches Ok(request) && request.content() == body
                && request.claimed().username@ == username && secret_text(
                request.claimed().password,
            ) == password,
            Err(reason) => accepted matches Err(error) && error@ == PublishFailure::AuthError(
                reason.text(),
            ),
        },
{
    match basic_authentication(authorization) {
        Ok(credentials) => Ok(AwaitingCredentials { body, credentials }),
        Err(reason) => Err(PublishError::from_header(reason)),
    }
}

} // verus!
