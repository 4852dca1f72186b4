//! Message authentication tags: a keyed digest that lets a message cross an
//! untrusted channel without being forged or altered.

use crate::secret::secret_text;
use crate::secret::Secret;
use hmac::Hmac;
use hmac::Mac;
use sha2::Sha256;
use vstd::prelude::*;
use vstd::utf8::encode_utf8;

verus! {

/// The error of `Mac::verify_slice`. It is carried through unread.
#[verifier::external_type_specification]
#[verifier::external_body]
pub struct ExMacError(hmac::digest::MacError);

/// The number of bytes in a tag.
pub const TAG_LENGTH: usize = 32;

/// The HMAC-SHA256 code of `message` under `key`.
pub uninterp spec fn hmac_sha256(key: Seq<u8>, message: Seq<u8>) -> Seq<u8>;

/// `Mac::finalize` on an `Hmac<Sha256>` that was keyed with `key` and fed
/// `message`: the 32-byte code, which depends on the two byte strings alone.
#[verifier::external_body]
fn hmac_sha256_finalize(key: &[u8], message: &[u8]) -> (code: Vec<u8>)
    ensures
        code@ == hmac_sha256(key@, message@),
        code@.len() == TAG_LENGTH,
{
    let mut mac = Hmac::<Sha256>::new_from_slice(key).expect("HMAC takes a key of any length");
    mac.update(message);
    mac.finalize().into_bytes().to_vec()
}

/// `Mac::verify_slice` on an `Hmac<Sha256>` that was keyed with `key` and fed
/// `message`: it accepts `code` exactly when `code` has the length of the
/// computed code and equals it, comparing all bytes whatever their values.
#[verifier::external_body]
fn hmac_sha256_verify_slice(key: &[u8], message: &[u8], code: &[u8]) -> (checked: Result<
    (),
    hmac::digest::MacError,
>)
    ensures
        checked is Ok <==> code@ == hmac_sha256(key@, message@),
        checked is Ok ==> code@.len() == TAG_LENGTH,
{
    let mut mac = Hmac::<Sha256>::new_from_slice(key).expect("HMAC takes a key of any length");
    mac.update(message);
    mac.verify_slice(code)
}

/// The secret key under which messages are signed.
pub struct HmacSecret(pub Secret);

impl HmacSecret {
    /// The bytes of the key.
    pub open spec fn key(self) -> Seq<u8> {
        encode_utf8(secret_text(self.0))
    }
}

/// A tag did not match its message. The value says nothing about why.
#[derive(Clone, Copy, Debug, PartialEq, Eq, Structural)]
pub struct VerificationError;

/// The tag that authenticates `message` under `key`: the code of the exact
/// bytes of the message.
pub open spec fn tag_of(message: Seq<char>, key: Seq<u8>) -> Seq<u8> {
    hmac_sha256(key, encode_utf8(message))
}

/// Whether `tag` authenticates `message` under `key`.
pub open spec fn authenticates(tag: Seq<u8>, message: Seq<char>, key: Seq<u8>) -> bool {
    tag == tag_of(message, key)
}

/// Computes the tag of `message` under `key`.
pub fn sign(message: &str, key: &HmacSecret) -> (tag: Vec<u8>)
    ensures
        tag@ == tag_of(message@, key.key()),
        tag@.len() == TAG_LENGTH,
{
    hmac_sha256_finalize(key.0.expose().as_bytes(), message.as_bytes())
}

/// Accepts `tag` exactly when it is the tag of `message` under `key`.
pub fn verify(message: &str, tag: &[u8], key: &HmacSecret) -> (checked: Result<
    (),
    VerificationError,
>)
    ensures
        checked is Ok <==> authenticates(tag@, message@, key.key()),
        checked is Ok ==> tag@.len() == TAG_LENGTH,
{
    match hmac_sha256_verify_slice(key.0.expose().as_bytes(), message.as_bytes(), tag) {
        Ok(()) => Ok(()),
        Err(_) => Err(VerificationError),
    }
}

/// The tag computed for a message authenticates that message under the
/// same key.
pub proof fn lemma_own_tag_authenticates(message: Seq<char>, key: Seq<u8>)
    ensures
        authenticates(tag_of(message, key), message, key),
{
}

/// Any byte string other than the tag computed for a message fails to
/// authenticate it, whether truncated, reordered or substituted.
pub proof fn lemma_other_tag_is_rejected(message: Seq<char>, key: Seq<u8>, tag: Seq<u8>)
    requires
        tag != tag_of(message, key),
    ensures
        !authenticates(tag, message, key),
{
}

} // verus!
