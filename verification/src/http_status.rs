//! HTTP status codes, as the HTTP client library reads them.

use vstd::prelude::*;

verus! {

/// Whether a status code reports success: the codes from 200 to 299.
pub open spec fn success(code: u16) -> bool {
    200 <= code < 300
}

/// Whether a number can be an HTTP status code: it has three digits.
pub open spec fn valid(code: u16) -> bool {
    100 <= code <= 999
}

/// What `reqwest::StatusCode` writes when it is displayed: the code in
/// decimal, a space, and the reason phrase that the HTTP standards give the
/// code, or a placeholder where they give none.
pub uninterp spec fn status_line(code: u16) -> Seq<char>;

/// Asks `reqwest::StatusCode::is_success` whether `code` reports success.
///
/// Trusted: the library answers for the codes in the range from 200 to 299.
/// A number for which `reqwest::StatusCode::from_u16` makes no status code
/// lies outside that range and reports none.
#[verifier::external_body]
pub(crate) fn is_success(code: u16) -> (yes: bool)
    ensures
        yes == success(code),
{
    match reqwest::StatusCode::from_u16(code) {
        Ok(status) => status.is_success(),
        Err(_) => false,
    }
}

/// Has `reqwest::StatusCode` write `code` as it displays a status.
///
/// Trusted: `reqwest::StatusCode::from_u16` makes a status code of the
/// numbers from 100 to 999 and of no others, and what is written depends on
/// the code alone.
#[verifier::external_body]
pub(crate) fn display(code: u16) -> (text: Option<String>)
    ensures
        text is Some <==> valid(code),
        text matches Some(line) ==> line@ == status_line(code),
{
    match reqwest::StatusCode::from_u16(code) {
        Ok(status) => Some(status.to_string()),
        Err(_) => None,
    }
}

} // verus!
