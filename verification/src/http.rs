//! The one fact about HTTP that the pipeline interprets: which status
//! codes count as success.

use vstd::prelude::*;

verus! {

/// A success status: the 2xx range.
pub open spec fn http_success(status: u16) -> bool {
    200 <= status < 300
}

/// Executable form of `http_success`.
pub fn is_http_success(status: u16) -> (r: bool)
    ensures
        r == http_success(status),
{
    200 <= status && status < 300
}

} // verus!
