//! The login page, with the error of a failed attempt where one arrives
//! with a valid tag.

use crate::encoding::hexadecimal::hex_decode;
use crate::encoding::hexadecimal::hex_decoded;
use crate::encoding::hexadecimal::is_hex_text;
use crate::encoding::html::html_escape;
use crate::encoding::html::html_escaped;
use crate::mac::authenticates;
use crate::mac::verify;
use crate::mac::HmacSecret;
use crate::mac::VerificationError;
use crate::routes::login::query::error_query;
use crate::routes::login::query::error_query_text;
use vstd::prelude::*;
use vstd::string::StringExecFns;

verus! {

/// The part of the login page before the place of the error message.
pub const LOGIN_PAGE_HEAD: &'static str = r#"
                <!DOCTYPE html>
                <html lang="en">
                <head>
                    <meta http-equiv="content-type" content="text/html; charset=utf-8">
                    <title>Login</title>
                </head>
                <body>
                    <form action="/login" method="post">
                        "#;

/// The part of the login page after the place of the error message.
pub const LOGIN_PAGE_TAIL: &'static str = r#"
                        <label>
                            Username
                            <input type="text" placeholder="Enter Username" name="username">
                        </label>

                        <label>
                            Password
                            <input type="password" placeholder="Enter Password" name="password">
                        </label>

                        <button type="submit">Login</button>
                    </form>
                </body>
                </html>
            "#;

/// The query parameters of an error-bearing redirect to the login page.
#[derive(Debug)]
pub struct QueryParams {
    /// The error message, decoded from the query string.
    pub error: String,
    /// The tag of the encoded message, in hexadecimal.
    pub tag: String,
}

/// Whether the tag `tag`, given in hexadecimal, authenticates the error
/// message `error` under `key`: the tag must decode, and must be the tag of
/// the encoded form of the message.
pub open spec fn query_is_authentic(error: Seq<char>, tag: Seq<char>, key: Seq<u8>) -> bool {
    is_hex_text(tag) && authenticates(hex_decoded(tag), error_query_text(error), key)
}

impl QueryParams {
    /// Hands out the error message if its tag is authentic, and fails
    /// without saying why if it is not.
    pub fn verify(self, secret: &HmacSecret) -> (verified: Result<String, VerificationError>)
        ensures
            verified is Ok <==> query_is_authentic(self.error@, self.tag@, secret.key()),
            verified matches Ok(message) ==> message@ == self.error@,
    {
        let tag = match hex_decode(self.tag.as_str()) {
            Err(_) => {
                return Err(VerificationError);
            },
            Ok(tag) => tag,
        };
        let query_string = error_query(self.error.as_str());
        match verify(query_string.as_str(), tag.as_slice(), secret) {
            Err(error) => Err(error),
            Ok(()) => Ok(self.error),
        }
    }
}

/// The markup that shows `message` on the login page.
pub open spec fn error_banner(message: Seq<char>) -> Seq<char> {
    "<p><i>"@ + html_escaped(message) + "</i><>/p"@
}

/// What the login page shows for the given query: the escaped message where
/// the query is authentic, nothing where it is absent or not authentic.
pub open spec fn error_html(query: Option<QueryParams>, key: Seq<u8>) -> Seq<char> {
    match query {
        None => Seq::empty(),
        Some(params) => if query_is_authentic(params.error@, params.tag@, key) {
            error_banner(params.error@)
        } else {
            Seq::empty()
        },
    }
}

/// Whether a query was given and then discarded because its tag does not
/// authenticate its message.
pub open spec fn is_discarded(query: Option<QueryParams>, key: Seq<u8>) -> bool {
    match query {
        None => false,
        Some(params) => !query_is_authentic(params.error@, params.tag@, key),
    }
}

/// The login page as it is sent.
#[derive(Debug, PartialEq, Eq)]
pub struct LoginPage {
    /// The markup of the page.
    pub html: String,
    /// Whether the request carried a message that was left out because
    /// its tag did not verify. Worth a warning in the log, nothing more.
    pub discarded_query: bool,
}

/// Renders the login page. A query whose tag does not verify is treated as
/// absent: the page is rendered without a message, and no error is raised.
pub fn login_form(query: Option<QueryParams>, secret: &HmacSecret) -> (page: LoginPage)
    ensures
        page.html@ == LOGIN_PAGE_HEAD@ + error_html(query, secret.key()) + LOGIN_PAGE_TAIL@,
        page.discarded_query == is_discarded(query, secret.key()),
{
    let mut html = String::from_str(LOGIN_PAGE_HEAD);
    let mut discarded_query = false;
    match query {
        None => {},
        Some(params) => match params.verify(secret) {
            Ok(message) => {
                html.append("<p><i>");
                html.append(html_escape(message.as_str()).as_str());
                html.append("</i><>/p");
                assert(html@ == LOGIN_PAGE_HEAD@ + error_banner(params.error@));
            },
            Err(_) => {
                discarded_query = true;
            },
        },
    }
    html.append(LOGIN_PAGE_TAIL);
    LoginPage { html, discarded_query }
}

} // verus!
