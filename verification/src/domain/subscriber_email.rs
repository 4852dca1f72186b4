//! Email addresses of subscribers.

use validator::ValidateEmail;
use vstd::prelude::*;
use vstd::string::StringExecFns;

verus! {

/// Whether `text` is an email address in the sense of the HTML5
/// specification, with the length limits of RFC 5321.
pub uninterp spec fn is_valid_email(text: Seq<char>) -> bool;

/// `ValidateEmail::validate_email` on a `String`: the verdict depends on the
/// text alone, and the empty text and any text without `@` are refused.
#[verifier::external_body]
fn validate_email(text: &String) -> (valid: bool)
    ensures
        valid == is_valid_email(text@),
        text@.len() == 0 ==> !valid,
        !text@.contains('@') ==> !valid,
{
    text.validate_email()
}

/// The text that explains why `address` was refused.
pub open spec fn invalid_email_message(address: Seq<char>) -> Seq<char> {
    "Email address is not valid: "@ + address
}

/// An email address that has passed validation.
#[derive(Debug)]
pub struct SubscriberEmail(String);

impl View for SubscriberEmail {
    type V = Seq<char>;

    closed spec fn view(&self) -> Seq<char> {
        self.0@
    }
}

impl SubscriberEmail {
    #[verifier::type_invariant]
    spec fn holds_valid_address(self) -> bool {
        is_valid_email(self.0@) && self.0@.contains('@')
    }

    /// Accepts `s` if it is a valid email address and keeps it unchanged;
    /// otherwise explains the refusal. The empty text and any text without
    /// `@` are refused.
    pub fn parse(s: String) -> (parsed: Result<SubscriberEmail, String>)
        ensures
            parsed is Ok <==> is_valid_email(s@),
            parsed is Ok ==> s@.len() > 0 && s@.contains('@'),
            parsed matches Ok(email) ==> email@ == s@,
            parsed matches Err(message) ==> message@ == invalid_email_message(s@),
    {
        if validate_email(&s) {
            Ok(SubscriberEmail(s))
        } else {
            let mut message = String::from_str("Email address is not valid: ");
            message.append(s.as_str());
            Err(message)
        }
    }

    /// The address as text. It is always a valid address.
    pub fn as_ref(&self) -> (address: &str)
        ensures
            address@ == self@,
            is_valid_email(address@),
            address@.contains('@'),
    {
        proof {
            use_type_invariant(self);
        }
        self.0.as_str()
    }
}

} // verus!
