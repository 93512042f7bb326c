//! Checks on the shape of an API token.

use vstd::prelude::*;
use vstd::string::StringSliceAdditionalSpecFns;

verus! {

broadcast use vstd::slice::group_slice_axioms;

/// The least number of bytes a token may have.
pub const MIN_TOKEN_LEN: usize = 20;

/// Whether `token` has the shape of an API token: at least
/// [`MIN_TOKEN_LEN`] bytes in its UTF-8 encoding.
pub fn validate_token_format(token: &str) -> (valid: bool)
    ensures
        valid == (token.spec_bytes().len() >= MIN_TOKEN_LEN),
{
    proof {
        // An empty string has an empty encoding, so the length test alone decides.
        assert(token@.len() == 0 ==> vstd::utf8::encode_utf8(token@).len() == 0);
    }
    !token.is_empty() && token.as_bytes().len() >= MIN_TOKEN_LEN
}

} // verus!
