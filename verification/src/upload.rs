//! The submission uploader's logic: where the archive goes and what the
//! server's answer means. The transfer itself happens outside the
//! library.

use vstd::prelude::*;
use vstd::string::StringExecFns;
use crate::errors::SubmitError;
use crate::http::{http_success, is_http_success};

verus! {

/// The URL of the submission endpoint: the fixed `/submit` path under the
/// server's base URL.
pub fn submit_url(server_url: &str) -> (u: String)
    ensures
        u@ == server_url@ + "/submit"@,
{
    let mut u = String::from_str(server_url);
    u.append("/submit");
    u
}

/// Read the upload's outcome: a success status surfaces the response body
/// as the confirmation; any other status is a rejection carrying the
/// status and body for display.
pub fn interpret_upload_response(status: u16, body: String) -> (r: Result<String, SubmitError>)
    ensures
        http_success(status) ==> r == Ok::<String, SubmitError>(body),
        !http_success(status) ==> r == Err::<String, SubmitError>(
            SubmitError::ServerRejected { status, body },
        ),
{
    if is_http_success(status) {
        Ok(body)
    } else {
        Err(SubmitError::ServerRejected { status, body })
    }
}

} // verus!
