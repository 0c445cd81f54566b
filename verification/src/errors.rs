//! The error taxonomy of the submission pipeline.

use vstd::prelude::*;

verus! {

/// Every failure of a run falls under one of these.
///
/// `ConfigError` covers missing or invalid configuration, including an
/// unsupported archive format; `IoError` a filesystem failure while the
/// archive is built; `NetworkError` a transport-level failure on a remote
/// call; `ProtocolError` a response that was well-formed HTTP but could not
/// be read into the expected shape; `ServerRejected` a remote call that
/// succeeded in transport but returned a non-success status, carrying the
/// status and body for display.
#[derive(Debug, PartialEq, Eq)]
pub enum SubmitError {
    ConfigError(String),
    IoError(String),
    NetworkError(String),
    ProtocolError(String),
    ServerRejected { status: u16, body: String },
}

} // verus!
