//! Checking a password against a stored Argon2 hash.

use crate::authentication::credentials::AuthError;
use crate::authentication::credentials::AuthFailure;
use crate::authentication::credentials::Credentials;
use crate::authentication::credentials::StoredCredentials;
use crate::secret::secret_text;
use crate::secret::Secret;
use argon2::Argon2;
use argon2::PasswordHash;
use argon2::PasswordVerifier;
use uuid::Uuid;
use vstd::prelude::*;
use vstd::string::StringExecFns;
use vstd::utf8::encode_utf8;

verus! {

/// Whether `text` is a password hash in the PHC string format.
pub uninterp spec fn is_phc_string(text: Seq<char>) -> bool;

/// Whether the Argon2 hash that the PHC string `hash` describes is the hash
/// of `password` under the salt and cost parameters that `hash` names.
pub uninterp spec fn argon2_accepts(hash: Seq<char>, password: Seq<u8>) -> bool;

/// What checking a password against a stored hash can find.
#[derive(Clone, Copy, Debug, PartialEq, Eq, Structural)]
pub enum PasswordCheck {
    /// The password is the one that was hashed.
    Match,
    /// The password is not the one that was hashed.
    Mismatch,
    /// The stored text is not a password hash.
    MalformedHash,
}

/// What checking `password` against `hash` finds.
pub open spec fn password_check(hash: Seq<char>, password: Seq<u8>) -> PasswordCheck {
    if !is_phc_string(hash) {
        PasswordCheck::MalformedHash
    } else if argon2_accepts(hash, password) {
        PasswordCheck::Match
    } else {
        PasswordCheck::Mismatch
    }
}

/// `PasswordHash::new` followed by `PasswordVerifier::verify_password` on
/// `Argon2::default()`: a text that does not parse as a PHC string is
/// reported as malformed; otherwise the password is hashed with the salt and
/// parameters of the parsed hash and the two digests are compared. Both
/// steps depend on their arguments alone.
#[verifier::external_body]
fn argon2_check(hash: &str, password: &[u8]) -> (found: PasswordCheck)
    ensures
        (found == PasswordCheck::MalformedHash) == !is_phc_string(hash@),
        (found == PasswordCheck::Match) == (is_phc_string(hash@) && argon2_accepts(
            hash@,
            password@,
        )),
{
    match PasswordHash::new(hash) {
        Err(_) => PasswordCheck::MalformedHash,
        Ok(parsed) => match Argon2::default().verify_password(password, &parsed) {
            Ok(()) => PasswordCheck::Match,
            Err(_) => PasswordCheck::Mismatch,
        },
    }
}

/// A well-formed hash of no known password. A login for an unknown user is
/// checked against it, so that it costs the same work as one for a known
/// user with a wrong password.
pub const FALLBACK_PASSWORD_HASH: &'static str =
    "$argon2id$v=19$m=15000,t=2,p=1$gZiV/M1gPc22ElAH/Jh1Hw$CWOrkoo7oJBQ/iyh7uJ0LO2aLEfrHwTWllSAxT0zRno";

/// The text of the error for a stored hash that cannot be parsed.
pub open spec fn malformed_hash_message() -> Seq<char> {
    "Failed to parse hash in PHC string format."@
}

/// The hash that a password is checked against: the stored one for a known
/// user, the fallback hash for an unknown one.
pub open spec fn expected_hash(stored: Option<StoredCredentials>) -> Seq<char> {
    match stored {
        Some(found) => secret_text(found.password_hash),
        None => FALLBACK_PASSWORD_HASH@,
    }
}

/// The identity of the user whose hash was looked up, if there is one.
pub open spec fn known_user(stored: Option<StoredCredentials>) -> Option<Uuid> {
    match stored {
        Some(found) => Some(found.user_id),
        None => None,
    }
}

/// The outcome of a credential check, given who the user is, if known, and
/// what the password check found.
pub open spec fn decision(user_id: Option<Uuid>, found: PasswordCheck) -> Result<
    Uuid,
    AuthFailure,
> {
    match found {
        PasswordCheck::MalformedHash => Err(
            AuthFailure::UnexpectedError(malformed_hash_message()),
        ),
        PasswordCheck::Mismatch => Err(AuthFailure::InvalidCredentials),
        PasswordCheck::Match => match user_id {
            Some(id) => Ok(id),
            None => Err(AuthFailure::InvalidCredentials),
        },
    }
}

/// A result with its error, if any, taken by its view.
pub open spec fn outcome_view(outcome: Result<Uuid, AuthError>) -> Result<Uuid, AuthFailure> {
    match outcome {
        Ok(id) => Ok(id),
        Err(error) => Err(error@),
    }
}

/// Decides a credential check from what the password check found.
///
/// A match names the user only if the user is known; a mismatch is
/// reported in the same way whether or not the user is known.
pub fn decide(user_id: Option<Uuid>, found: PasswordCheck) -> (outcome: Result<Uuid, AuthError>)
    ensures
        outcome_view(outcome) == decision(user_id, found),
{
    match found {
        PasswordCheck::MalformedHash => Err(
            AuthError::UnexpectedError(
                String::from_str("Failed to parse hash in PHC string format."),
            ),
        ),
        PasswordCheck::Mismatch => Err(AuthError::InvalidCredentials),
        PasswordCheck::Match => match user_id {
            Some(id) => Ok(id),
            None => Err(AuthError::InvalidCredentials),
        },
    }
}

/// Checks `password_candidate` against `expected_password_hash`.
pub fn verify_password_hash(expected_password_hash: &Secret, password_candidate: &Secret) -> (found:
    PasswordCheck)
    ensures
        found == password_check(
            secret_text(*expected_password_hash),
            encode_utf8(secret_text(*password_candidate)),
        ),
{
    argon2_check(expected_password_hash.expose(), password_candidate.expose().as_bytes())
}

/// The outcome that `validate_credentials` owes for the given credentials
/// and the given answer of the credential store.
pub open spec fn validation(
    credentials: Credentials,
    stored: Result<Option<StoredCredentials>, String>,
) -> Result<Uuid, AuthFailure> {
    match stored {
        Err(cause) => Err(AuthFailure::UnexpectedError(cause@)),
        Ok(found) => decision(
            known_user(found),
            password_check(expected_hash(found), encode_utf8(secret_text(credentials.password))),
        ),
    }
}

/// Verifies `credentials` against what the credential store answered for
/// their user name: `Ok(None)` for an unknown user, `Err` where the lookup
/// itself failed.
///
/// A failed lookup is an unexpected error. Otherwise the password is checked
/// against a hash in every case, for an unknown user against the fallback
/// hash, and the user is named only where a known user's hash matches. An
/// unknown user and a wrong password give the same error value.
pub fn validate_credentials(
    credentials: Credentials,
    stored: Result<Option<StoredCredentials>, String>,
) -> (outcome: Result<Uuid, AuthError>)
    ensures
        outcome_view(outcome) == validation(credentials, stored),
{
    match stored {
        Err(cause) => Err(AuthError::UnexpectedError(cause)),
        Ok(Some(found)) => {
            let checked = verify_password_hash(&found.password_hash, &credentials.password);
            decide(Some(found.user_id), checked)
        },
        Ok(None) => {
            let fallback = Secret::new(String::from_str(FALLBACK_PASSWORD_HASH));
            let checked = verify_password_hash(&fallback, &credentials.password);
            decide(None, checked)
        },
    }
}

/// A wrong password and an unknown user cannot be told apart: whenever the
/// password check finds a mismatch, the outcome is the same error whether or
/// not the user is known.
pub proof fn lemma_mismatch_hides_whether_user_exists(known: Uuid)
    ensures
        decision(Some(known), PasswordCheck::Mismatch) == decision(None, PasswordCheck::Mismatch),
        decision(None, PasswordCheck::Mismatch) == Err::<Uuid, AuthFailure>(
            AuthFailure::InvalidCredentials,
        ),
        decision(None, PasswordCheck::Match) == Err::<Uuid, AuthFailure>(
            AuthFailure::InvalidCredentials,
        ),
{
}

} // verus!
