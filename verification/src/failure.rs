//! Per-attempt failure taxonomy of the polling core.

use vstd::prelude::*;

verus! {

/// Why one request attempt produced no telemetry. Every variant is
/// per-attempt and non-fatal: the next poll tick is the retry mechanism.
#[derive(Clone, Copy, Debug, PartialEq, Eq, Structural)]
pub enum Failure {
    /// The device host name could not be resolved to an address.
    Resolve,
    /// The connection could not be established within its short deadline.
    Connect,
    /// Writing the request frame failed or timed out.
    Write,
    /// Reading the response failed or timed out.
    Read,
    /// The response was malformed or too short to carry a payload.
    Decode,
}

} // verus!
