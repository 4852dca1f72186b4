//! What a submitted login form leads to.

use crate::authentication::credentials::AuthError;
use crate::authentication::credentials::AuthFailure;
use crate::authentication::credentials::Credentials;
use crate::authentication::credentials::StoredCredentials;
use crate::authentication::password::validate_credentials;
use crate::authentication::password::validation;
use crate::encoding::hexadecimal::hex_decoded;
use crate::encoding::hexadecimal::hex_encode;
use crate::encoding::hexadecimal::hex_encoded;
use crate::encoding::hexadecimal::lemma_hex_round_trip;
use crate::mac::sign;
use crate::mac::tag_of;
use crate::mac::HmacSecret;
use crate::routes::login::get::query_is_authentic;
use crate::routes::login::query::error_query;
use crate::routes::login::query::error_query_text;
use crate::secret::Secret;
use uuid::Uuid;
use vstd::prelude::*;
use vstd::string::StringExecFns;

verus! {

/// The fields of the login form.
#[derive(Debug)]
pub struct FormData {
    pub username: String,
    pub password: Secret,
}

impl FormData {
    /// The credentials that the form claims.
    pub open spec fn credentials(self) -> Credentials {
        Credentials { username: self.username, password: self.password }
    }
}

/// Why a login attempt failed.
#[derive(Debug, PartialEq, Eq)]
pub enum LoginError {
    /// The credentials were refused. Holds the cause, for the log only.
    AuthError(String),
    /// The check could not be carried out. Holds the cause, for the log only.
    UnexpectedError(String),
}

/// A `LoginError` with its cause as a sequence of characters.
pub enum LoginFailure {
    AuthError(Seq<char>),
    UnexpectedError(Seq<char>),
}

impl View for LoginError {
    type V = LoginFailure;

    open spec fn view(&self) -> LoginFailure {
        match self {
            LoginError::AuthError(cause) => LoginFailure::AuthError(cause@),
            LoginError::UnexpectedError(cause) => LoginFailure::UnexpectedError(cause@),
        }
    }
}

impl LoginFailure {
    /// The text shown to the user. It depends on the kind of failure alone,
    /// never on its cause.
    pub open spec fn message(self) -> Seq<char> {
        match self {
            LoginFailure::AuthError(_) => "Authentication failed."@,
            LoginFailure::UnexpectedError(_) => "Something went wrong."@,
        }
    }

    /// The login failure that a failed credential check becomes.
    pub open spec fn from_auth(failure: AuthFailure) -> LoginFailure {
        match failure {
            AuthFailure::InvalidCredentials => LoginFailure::AuthError(failure.message()),
            AuthFailure::UnexpectedError(_) => LoginFailure::UnexpectedError(failure.message()),
        }
    }
}

impl LoginError {
    /// The text shown to the user.
    pub fn message(&self) -> (text: String)
        ensures
            text@ == self@.message(),
    {
        match self {
            LoginError::AuthError(_) => String::from_str("Authentication failed."),
            LoginError::UnexpectedError(_) => String::from_str("Something went wrong."),
        }
    }

    /// Turns a failed credential check into a login error of the same
    /// kind, keeping its text as the cause.
    pub fn from_auth(error: AuthError) -> (converted: LoginError)
        ensures
            converted@ == LoginFailure::from_auth(error@),
    {
        let cause = error.message();
        match error {
            AuthError::InvalidCredentials => LoginError::AuthError(cause),
            AuthError::UnexpectedError(_) => LoginError::UnexpectedError(cause),
        }
    }
}

/// A `303 See Other` response.
#[derive(Debug, PartialEq, Eq)]
pub struct SeeOther {
    /// The value of the `Location` header.
    pub location: String,
}

/// A successful login: who logged in, and where to send them.
#[derive(Debug)]
pub struct LoggedIn {
    pub user_id: Uuid,
    pub response: SeeOther,
}

/// A failed login: the error, and the redirect that carries its message
/// back to the login page.
#[derive(Debug)]
pub struct LoginRejected {
    pub error: LoginError,
    pub response: SeeOther,
}

/// The tag, in hexadecimal, that is sent along with `message`.
pub open spec fn signed_tag(message: Seq<char>, key: Seq<u8>) -> Seq<char> {
    hex_encoded(tag_of(error_query_text(message), key))
}

/// Where a failed login is sent: the login page, with the encoded message
/// and the tag of that encoded form.
pub open spec fn failure_location(message: Seq<char>, key: Seq<u8>) -> Seq<char> {
    "/login?"@ + error_query_text(message) + "&tag="@ + signed_tag(message, key)
}

/// Builds the redirect that carries `message` to the login page, signed
/// under `secret`.
pub fn failure_redirect(message: &str, secret: &HmacSecret) -> (response: SeeOther)
    ensures
        response.location@ == failure_location(message@, secret.key()),
{
    let query_string = error_query(message);
    let hmac_tag = sign(query_string.as_str(), secret);
    let mut location = String::from_str("/login?");
    location.append(query_string.as_str());
    location.append("&tag=");
    location.append(hex_encode(hmac_tag.as_slice()).as_str());
    SeeOther { location }
}

/// Handles a submitted login form, given what the credential store
/// answered for the user name.
///
/// Valid credentials lead to the home page. Any failure leads back to the
/// login page with a signed message that says no more than the kind of
/// failure.
pub fn login(
    form: FormData,
    stored: Result<Option<StoredCredentials>, String>,
    secret: &HmacSecret,
) -> (outcome: Result<LoggedIn, LoginRejected>)
    ensures
        match validation(form.credentials(), stored) {
            Ok(user_id) => outcome matches Ok(logged_in) && logged_in.user_id == user_id
                && logged_in.response.location@ == "/"@,
            Err(failure) => outcome matches Err(rejected) && rejected.error@
                == LoginFailure::from_auth(failure) && rejected.response.location@
                == failure_location(LoginFailure::from_auth(failure).message(), secret.key()),
        },
{
    let credentials = Credentials { username: form.username, password: form.password };
    match validate_credentials(credentials, stored) {
        Ok(user_id) => Ok(LoggedIn { user_id, response: SeeOther { location: String::from_str("/") } }),
        Err(e) => {
            let error = LoginError::from_auth(e);
            let response = failure_redirect(error.message().as_str(), secret);
            Err(LoginRejected { error, response })
        },
    }
}

/// A message that was signed for a redirect is accepted when the redirect
/// is followed: the tag that `failure_redirect` sends authenticates the
/// same message under the same key.
pub proof fn lemma_signed_message_is_authentic(message: Seq<char>, key: Seq<u8>)
    ensures
        query_is_authentic(message, signed_tag(message, key), key),
{
    lemma_hex_round_trip(tag_of(error_query_text(message), key));
}

/// A message is accepted with no other tag than its own: a hexadecimal
/// text that decodes to another byte string than the tag of the encoded
/// message is refused.
pub proof fn lemma_forged_tag_is_refused(message: Seq<char>, tag: Seq<char>, key: Seq<u8>)
    requires
        hex_decoded(tag) != tag_of(error_query_text(message), key),
    ensures
        !query_is_authentic(message, tag, key),
{
}

} // verus!
