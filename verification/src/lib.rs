//! An authorization-gated conditional value-transfer rule.
//!
//! Funds move from a configured source identity to a configured destination
//! identity only when the requested amount is at least a configured
//! threshold, and only when the source itself authorized the request. A
//! separate authority identity may reconfigure the threshold and the
//! source/destination pair.
//!
//! The crate holds the configuration record and its store ([`state`]), the
//! guarded operations over them ([`guard`]), and proofs of the access-control
//! and threshold laws ([`laws`]). Moving real value, deriving the record's
//! canonical address and verifying signatures are the hosting environment's
//! work; this crate decides, over plain values, what every such request is
//! allowed to do.

pub mod errors;
pub mod guard;
pub mod identity;
pub mod laws;
pub mod state;
