//! What the upload command says before and after the upload.
//!
//! The upload itself is decided by
//! [`ApiClient::upload_file`](crate::api::ApiClient::upload_file) and what
//! follows it.

use crate::error::Error;
use crate::text::{signed, signed_decimal};
use vstd::prelude::*;
use vstd::string::StringExecFns;

verus! {

/// What is shown once a file has been uploaded.
pub const UPLOADED: &'static str = "File uploaded successfully!";

/// What is shown before a file is uploaded.
pub open spec fn announcement(package_id: i32, ref_id: Seq<char>, file_path: Seq<char>) -> Seq<
    char,
> {
    "Uploading file "@ + file_path + " to package "@ + signed(package_id as int) + " (ref: "@
        + ref_id + ")..."@
}

/// Begins the upload command: says what to show before anything is read or
/// sent.
pub fn upload_file(package_id: i32, ref_id: &str, file_path: &str) -> (shown: String)
    ensures
        shown@ == announcement(package_id, ref_id@, file_path@),
{
    let id = signed_decimal(package_id);
    String::from_str("Uploading file ").concat(file_path).concat(" to package ").concat(
        id.as_str(),
    ).concat(" (ref: ").concat(ref_id).concat(")...")
}

/// Ends the upload command: an upload that went through is confirmed with
/// [`UPLOADED`], and one that did not ends the command with its error.
pub fn uploaded(sent: Result<(), Error>) -> (shown: Result<String, Error>)
    ensures
        match sent {
            Ok(_) => shown matches Ok(text) && text@ == UPLOADED@,
            Err(error) => shown matches Err(failure) && failure@ == error@,
        },
{
    match sent {
        Ok(_) => Ok(String::from_str(UPLOADED)),
        Err(error) => Err(error),
    }
}

} // verus!
