//! A small TCP-handshake latency prober: normalize a target address,
//! pick one endpoint, time a bounded connect, and report on a fixed cadence.
//!
//! This crate holds the verified logic: address normalization, endpoint
//! selection with its fallback rule, the probe-result taxonomy, the report
//! lines, and the probe-loop state machine. Opening sockets, sleeping and
//! command-line parsing live outside, in the thin binary around the library.

pub mod addr;
pub mod config;
pub mod machine;
pub mod probe;
pub mod report;
pub mod timespan;

use vstd::prelude::*;

verus! {

} // verus!
