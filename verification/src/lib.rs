//! Aggregation of several tokio `Notify` instances into a single source of
//! notifications.
//!
//! The verified core lives here: the aggregator's two shared signals, the
//! per-source forwarding state machine that relays notifications until the
//! aggregator is cancelled, and the laws that tie them together.

pub mod aggregator;
pub mod forwarder;
pub mod signal;

use vstd::prelude::*;

verus! {

/// An empty marker type: it holds nothing and does nothing.
pub struct ReadmeDoctests;

} // verus!
