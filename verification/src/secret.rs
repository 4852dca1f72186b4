//! Secret strings: values that are never printed and are wiped when dropped.

use secrecy::ExposeSecret;
use secrecy::SecretString;
use vstd::prelude::*;

verus! {

/// A string that must not leak, kept in a `secrecy::SecretString`: it is
/// redacted wherever it is printed, and its memory is wiped when the value is
/// dropped.
#[verifier::external_body]
#[derive(Debug)]
pub struct Secret {
    inner: SecretString,
}

/// The characters that a secret holds.
pub uninterp spec fn secret_text(secret: Secret) -> Seq<char>;

/// `SecretString::from` moves the given text into a secret without changing it.
#[verifier::external_body]
fn seal(text: String) -> (secret: Secret)
    ensures
        secret_text(secret) == text@,
{
    Secret { inner: SecretString::from(text) }
}

/// `ExposeSecret::expose_secret` lends the text that the secret holds.
#[verifier::external_body]
fn unseal(secret: &Secret) -> (text: &str)
    ensures
        text@ == secret_text(*secret),
{
    secret.inner.expose_secret()
}

impl Secret {
    /// Wraps `text` as a secret.
    pub fn new(text: String) -> (secret: Secret)
        ensures
            secret_text(secret) == text@,
    {
        seal(text)
    }

    /// Lends the protected text. The caller must not log or store it.
    pub fn expose(&self) -> (text: &str)
        ensures
            text@ == secret_text(*self),
    {
        unseal(self)
    }
}

} // verus!
