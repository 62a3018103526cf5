//! A policy-gated local execution protocol, verified end to end: a strict
//! JSON codec for the ActionPlan request and ActionPlanResult response
//! documents, a structural validator with a complete specification of every
//! rule it enforces, a deny-list and confirmation policy engine, pure
//! mode-dispatched action handling, and a redacting audit record builder.
//!
//! The daemon and client binaries around this library only move bytes:
//! sockets, subprocesses and files stay outside, and hand their plain
//! outcomes to the verified result builders here.

use vstd::prelude::*;

pub mod audit;
pub mod client;
pub mod dispatch;
pub mod files;
pub mod laws;
pub mod numbers;
pub mod parse;
pub mod policy;
pub mod request;
pub mod text;
pub mod types;
pub mod validate;
pub mod wire;

verus! {

/// Largest number of bytes the daemon accepts on one connection.
pub const MAX_REQUEST_BYTES: usize = 262144;

} // verus!
