//! The one encoding of an error message that is both signed and placed in
//! the URL. Signing and verifying go through this routine alone, so that a
//! tag can never be checked against another encoding than the one it was
//! computed for.

use crate::encoding::percent::url_encode;
use crate::encoding::percent::url_encoded;
use vstd::prelude::*;
use vstd::string::StringExecFns;

verus! {

/// The query-string form of an error message: `error=` and the
/// percent-encoded message.
pub open spec fn error_query_text(error: Seq<char>) -> Seq<char> {
    "error="@ + url_encoded(error)
}

/// Builds the query-string form of an error message.
pub fn error_query(error: &str) -> (query: String)
    ensures
        query@ == error_query_text(error@),
{
    let mut query = String::from_str("error=");
    query.append(url_encode(error).as_str());
    query
}

} // verus!
