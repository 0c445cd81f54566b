//! The eligibility checker's logic: where the check request goes, and how
//! its outcome is read into a decision. The network call itself happens
//! outside the library; this module fixes what is asked and what every
//! possible answer means.

use vstd::prelude::*;
use vstd::string::StringExecFns;
use crate::errors::SubmitError;
use crate::http::{http_success, is_http_success};

verus! {

/// The server's verdict on whether a submission may proceed: approval,
/// the format it requires, how many attempts remain, and — optionally —
/// when the user last submitted (epoch seconds) and the competition's
/// display name.
pub struct EligibilityDecision {
    pub approved: bool,
    pub required_format: String,
    pub remaining_attempts: i32,
    pub last_submission: Option<u64>,
    pub competition_name: Option<String>,
}

/// The URL of the eligibility check: the fixed `/check` path under the
/// server's base URL, with the competition identifier as a query
/// parameter when one is configured.
pub fn check_url(server_url: &str, competition_id: &Option<String>) -> (u: String)
    ensures
        match competition_id {
            Some(id) => u@ == server_url@ + "/check?competition="@ + id@,
            None => u@ == server_url@ + "/check"@,
        },
{
    let mut u = String::from_str(server_url);
    match competition_id {
        Some(id) => {
            u.append("/check?competition=");
            u.append(id.as_str());
        },
        None => {
            u.append("/check");
        },
    }
    u
}

/// Read the check's outcome. A non-success status is a rejection carrying
/// the status and body; a success status whose body could not be read
/// into the expected shape is a protocol error; otherwise the parsed
/// decision stands. A non-approved decision is not an error here — the
/// orchestrator handles it as a normal outcome.
pub fn interpret_check_response(
    status: u16,
    body: String,
    parsed: Option<EligibilityDecision>,
) -> (r: Result<EligibilityDecision, SubmitError>)
    ensures
        !http_success(status) ==> r == Err::<EligibilityDecision, SubmitError>(
            SubmitError::ServerRejected { status, body },
        ),
        http_success(status) && parsed is None ==> (r matches Err(e) && e is ProtocolError),
        parsed matches Some(d) ==> http_success(status) ==> r == Ok::<
            EligibilityDecision,
            SubmitError,
        >(d),
{
    if !is_http_success(status) {
        return Err(SubmitError::ServerRejected { status, body });
    }
    match parsed {
        Some(d) => Ok(d),
        None => Err(
            SubmitError::ProtocolError(
                String::from_str("check response could not be read as a decision"),
            ),
        ),
    }
}

/// How long ago the last submission was, for display: whole hours and
/// leftover minutes. A last-submission time in the future counts as zero
/// elapsed time.
pub fn elapsed_hours_minutes(now_secs: u64, last_secs: u64) -> (r: (u64, u64))
    ensures
        now_secs >= last_secs ==> r.0 == (now_secs - last_secs) / 3600 && r.1 == ((now_secs
            - last_secs) % 3600) / 60,
        now_secs < last_secs ==> r.0 == 0 && r.1 == 0,
{
    if now_secs < last_secs {
        (0, 0)
    } else {
        let d = now_secs - last_secs;
        (d / 3600, (d % 3600) / 60)
    }
}

} // verus!
