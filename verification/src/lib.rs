//! A verified submission pipeline: decide which files of a working tree
//! belong in an archive, build the archive, interpret a remote service's
//! eligibility and upload answers, and sequence a run — with the
//! filtering, interpretation and sequencing proved against their
//! contracts. Network and filesystem work happens in the thin tool
//! around this library.

pub mod archive;
pub mod config;
pub mod eligibility;
pub mod errors;
pub mod filter;
pub mod http;
pub mod orchestrator;
pub mod text;
pub mod update;
pub mod upload;
