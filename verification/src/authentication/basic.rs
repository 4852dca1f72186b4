//! The `Authorization` header of the Basic scheme.

use crate::authentication::credentials::Credentials;
use crate::encoding::base64_standard::base64_decode;
use crate::encoding::base64_standard::base64_decoded;
use crate::encoding::utf8::string_from_utf8;
use crate::secret::secret_text;
use crate::secret::Secret;
use crate::text::after_first;
use crate::text::before_first;
use crate::text::find_char;
use vstd::prelude::*;
use vstd::slice::slice_subrange;
use vstd::string::StrSliceExecFns;
use vstd::string::StringExecFns;
use vstd::utf8::decode_utf8;
use vstd::utf8::valid_utf8;

verus! {

/// Why a request carries no usable Basic credentials.
#[derive(Clone, Copy, Debug, PartialEq, Eq, Structural)]
pub enum BasicAuthError {
    /// The request has no `Authorization` header.
    MissingHeader,
    /// The header value holds a byte that is not visible ASCII.
    NotText,
    /// The header value does not start with `Basic `.
    WrongScheme,
    /// What follows the scheme is not base64.
    InvalidBase64,
    /// The decoded credentials are not UTF-8.
    InvalidUtf8,
    /// The decoded credentials hold no colon, so no password follows the
    /// user name.
    MissingPassword,
}

impl BasicAuthError {
    /// The text that describes the error.
    pub open spec fn text(self) -> Seq<char> {
        match self {
            BasicAuthError::MissingHeader => "Missing Authorization header"@,
            BasicAuthError::NotText => "Authorization header is not valid UTF-8"@,
            BasicAuthError::WrongScheme => "The authorization scheme was not 'Basic'"@,
            BasicAuthError::InvalidBase64 => "Failed to decode authorization header from base64"@,
            BasicAuthError::InvalidUtf8 => "The credentials is not valid UTF-8 string"@,
            BasicAuthError::MissingPassword => "Missing password"@,
        }
    }

    /// Describes the error.
    pub fn message(&self) -> (message: String)
        ensures
            message@ == self.text(),
    {
        match self {
            BasicAuthError::MissingHeader => String::from_str("Missing Authorization header"),
            BasicAuthError::NotText => String::from_str("Authorization header is not valid UTF-8"),
            BasicAuthError::WrongScheme => String::from_str(
                "The authorization scheme was not 'Basic'",
            ),
            BasicAuthError::InvalidBase64 => String::from_str(
                "Failed to decode authorization header from base64",
            ),
            BasicAuthError::InvalidUtf8 => String::from_str(
                "The credentials is not valid UTF-8 string",
            ),
            BasicAuthError::MissingPassword => String::from_str("Missing password"),
        }
    }
}

/// Whether `b` may stand in a header value that is read as text: a
/// printable ASCII character, a space or a tab.
pub open spec fn is_visible_ascii(b: u8) -> bool {
    32 <= b < 127 || b == 9
}

/// Whether every byte of a header value can be read as text.
pub open spec fn is_header_text(value: Seq<u8>) -> bool {
    forall|i: int| 0 <= i < value.len() ==> is_visible_ascii(#[trigger] value[i])
}

/// The bytes of `Basic `, the scheme and the space after it.
pub open spec fn basic_scheme_prefix() -> Seq<u8> {
    seq![66u8, 97u8, 115u8, 105u8, 99u8, 32u8]
}

/// Whether a header value starts with `Basic `.
pub open spec fn has_basic_scheme(value: Seq<u8>) -> bool {
    value.len() >= 6 && value.subrange(0, 6) == basic_scheme_prefix()
}

/// The base64 text that follows the scheme in a header value, or the
/// reason why the value carries none.
pub open spec fn encoded_credentials(header: Option<Seq<u8>>) -> Result<Seq<u8>, BasicAuthError> {
    match header {
        None => Err(BasicAuthError::MissingHeader),
        Some(value) => if !is_header_text(value) {
            Err(BasicAuthError::NotText)
        } else if !has_basic_scheme(value) {
            Err(BasicAuthError::WrongScheme)
        } else {
            Ok(value.skip(6))
        },
    }
}

/// The user name and password in decoded credentials, or the reason why
/// they hold none. The user name ends at the first colon; the password is
/// everything after it, colons included.
pub open spec fn decoded_credentials(bytes: Seq<u8>) -> Result<
    (Seq<char>, Seq<char>),
    BasicAuthError,
> {
    if !valid_utf8(bytes) {
        Err(BasicAuthError::InvalidUtf8)
    } else if !decode_utf8(bytes).contains(':') {
        Err(BasicAuthError::MissingPassword)
    } else {
        Ok((before_first(decode_utf8(bytes), ':'), after_first(decode_utf8(bytes), ':')))
    }
}

/// The user name and password that a header value carries, or the reason
/// why it carries none.
pub open spec fn basic_credentials(header: Option<Seq<u8>>) -> Result<
    (Seq<char>, Seq<char>),
    BasicAuthError,
> {
    match encoded_credentials(header) {
        Err(reason) => Err(reason),
        Ok(encoded) => match base64_decoded(encoded) {
            None => Err(BasicAuthError::InvalidBase64),
            Some(bytes) => decoded_credentials(bytes),
        },
    }
}

/// A header value as a sequence of bytes, if there is one.
pub open spec fn header_view(header: Option<&[u8]>) -> Option<Seq<u8>> {
    match header {
        Some(value) => Some(value@),
        None => None,
    }
}

fn check_header_text(value: &[u8]) -> (ok: bool)
    ensures
        ok == is_header_text(value@),
{
    let mut i: usize = 0;
    while i < value.len()
        invariant
            i <= value.len(),
            forall|j: int| 0 <= j < i ==> is_visible_ascii(#[trigger] value@[j]),
        decreases value.len() - i,
    {
        let b = value[i];
        if !((32 <= b && b < 127) || b == 9) {
            return false;
        }
        i = i + 1;
    }
    true
}

fn check_basic_scheme(value: &[u8]) -> (ok: bool)
    ensures
        ok == has_basic_scheme(value@),
{
    if value.len() < 6 {
        return false;
    }
    let ok = value[0] == 66 && value[1] == 97 && value[2] == 115 && value[3] == 105 && value[4]
        == 99 && value[5] == 32;
    proof {
        let head = value@.subrange(0, 6);
        if ok {
            assert(head =~= basic_scheme_prefix());
        } else {
            assert(head[0] == value@[0] && head[1] == value@[1] && head[2] == value@[2]);
            assert(head[3] == value@[3] && head[4] == value@[4] && head[5] == value@[5]);
        }
    }
    ok
}

/// Whether `parsed` is the outcome that `expected` describes.
pub open spec fn is_parsed_as(
    parsed: Result<Credentials, BasicAuthError>,
    expected: Result<(Seq<char>, Seq<char>), BasicAuthError>,
) -> bool {
    match expected {
        Ok((username, password)) => parsed matches Ok(credentials) && credentials.username@
            == username && secret_text(credentials.password) == password,
        Err(reason) => parsed matches Err(e) && e == reason,
    }
}

/// Finds the base64 text in the value of an `Authorization` header.
/// `header` is `None` where the request has no such header.
pub fn find_encoded_credentials<'a>(header: Option<&'a [u8]>) -> (found: Result<
    &'a [u8],
    BasicAuthError,
>)
    ensures
        match encoded_credentials(header_view(header)) {
            Ok(encoded) => found matches Ok(part) && part@ == encoded,
            Err(reason) => found matches Err(e) && e == reason,
        },
{
    let value = match header {
        None => {
            return Err(BasicAuthError::MissingHeader);
        },
        Some(value) => value,
    };
    if !check_header_text(value) {
        return Err(BasicAuthError::NotText);
    }
    if !check_basic_scheme(value) {
        return Err(BasicAuthError::WrongScheme);
    }
    let encoded = slice_subrange(value, 6, value.len());
    assert(encoded@ == value@.skip(6));
    Ok(encoded)
}

/// Splits decoded credentials into user name and password.
pub fn split_credentials(decoded: Vec<u8>) -> (parsed: Result<Credentials, BasicAuthError>)
    ensures
        is_parsed_as(parsed, decoded_credentials(decoded@)),
{
    let text = match string_from_utf8(decoded) {
        Err(_) => {
            return Err(BasicAuthError::InvalidUtf8);
        },
        Ok(text) => text,
    };
    let colon = match find_char(text.as_str(), ':') {
        None => {
            return Err(BasicAuthError::MissingPassword);
        },
        Some(colon) => colon,
    };
    let length = text.as_str().unicode_len();
    let username = String::from_str(text.as_str().substring_char(0, colon));
    let password = String::from_str(text.as_str().substring_char(colon + 1, length));
    Ok(Credentials { username, password: Secret::new(password) })
}

/// Reads the credentials that the value of an `Authorization` header
/// carries. `header` is `None` where the request has no such header.
pub fn basic_authentication(header: Option<&[u8]>) -> (parsed: Result<Credentials, BasicAuthError>)
    ensures
        is_parsed_as(parsed, basic_credentials(header_view(header))),
{
    let encoded = match find_encoded_credentials(header) {
        Err(reason) => {
            return Err(reason);
        },
        Ok(encoded) => encoded,
    };
    match base64_decode(encoded) {
        Err(_) => Err(BasicAuthError::InvalidBase64),
        Ok(decoded) => split_credentials(decoded),
    }
}

} // verus!
