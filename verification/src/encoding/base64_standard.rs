//! Decoding of standard base64 with padding.

use base64::engine::general_purpose::STANDARD;
use base64::Engine;
use vstd::prelude::*;

verus! {

/// The error of `Engine::decode`. It is carried through unread.
#[verifier::external_type_specification]
#[verifier::external_body]
pub struct ExDecodeError(base64::DecodeError);

/// The bytes that `text` stands for in the standard base64 alphabet with
/// canonical padding, or `None` where `text` is not such an encoding.
pub uninterp spec fn base64_decoded(text: Seq<u8>) -> Option<Seq<u8>>;

/// `Engine::decode` on the `STANDARD` engine: the result depends on the
/// input bytes alone, and is an error exactly where the input is not
/// standard padded base64.
#[verifier::external_body]
pub(crate) fn base64_decode(text: &[u8]) -> (decoded: Result<Vec<u8>, base64::DecodeError>)
    ensures
        decoded is Ok <==> base64_decoded(text@) is Some,
        decoded matches Ok(bytes) ==> base64_decoded(text@) == Some(bytes@),
{
    STANDARD.decode(text)
}

} // verus!
