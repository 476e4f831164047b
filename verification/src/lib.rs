//! Core of a protocol-agnostic load generator: the connection lifecycle and
//! dispatch engine.  It models the pool manager that establishes connections,
//! the capacity-one handoff queue that carries ready session handles to worker
//! tasks under backpressure, the worker step machine that classifies and
//! executes work items, the wire encodings of the two exemplar protocols
//! (cache SET command, RPC ping over a multiplexed session), and the metrics
//! accounting that every step performs.
use vstd::prelude::*;

pub mod authority;
pub mod cache;
pub mod config;
pub mod handoff;
pub mod launch;
pub mod metrics;
pub mod ping;
pub mod pool;
pub mod wire;
pub mod worker;
pub mod workload;

verus! {

/// Outcome of a single protocol operation, as reported to the caller.
/// Callers use it only to choose a metric bucket.
#[derive(Clone, Copy, PartialEq, Eq, Structural, Debug)]
pub enum ResponseError {
    /// A protocol- or transport-level failure.
    Exception,
    /// The operation exceeded its deadline.
    Timeout,
}

} // verus!
