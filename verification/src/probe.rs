//! The probe model: concrete endpoints as plain values, the outcome of a
//! single probe, its failure taxonomy, and the endpoint-selection rule
//! with its fallback to a fixed default.

use vstd::prelude::*;
use crate::timespan::TimeSpan;

verus! {

/// A resolved host address, held as plain numbers: the four octets of an
/// IPv4 address or the eight segments of an IPv6 address.
#[derive(Clone, Copy, Debug, PartialEq, Eq, Structural)]
pub enum HostAddress {
    V4 { a: u8, b: u8, c: u8, d: u8 },
    V6 { s0: u16, s1: u16, s2: u16, s3: u16, s4: u16, s5: u16, s6: u16, s7: u16 },
}

/// One concrete endpoint to connect to: a host address and a port.
#[derive(Clone, Copy, Debug, PartialEq, Eq, Structural)]
pub struct Endpoint {
    pub host: HostAddress,
    pub port: u16,
}

/// The fixed default endpoint, used when resolution yields no candidate.
pub open spec fn fallback_endpoint() -> Endpoint {
    Endpoint { host: HostAddress::V4 { a: 1, b: 1, c: 1, d: 1 }, port: 443 }
}

/// Build the fixed default endpoint.
pub fn default_endpoint() -> (r: Endpoint)
    ensures
        r == fallback_endpoint(),
{
    Endpoint { host: HostAddress::V4 { a: 1, b: 1, c: 1, d: 1 }, port: 443 }
}

/// Choose the endpoint to probe from the resolver's candidates: the first
/// candidate when there is one, else the fixed default. The flag says
/// whether the fallback was taken, so the caller can emit the diagnostic.
pub fn select_endpoint(candidates: &Vec<Endpoint>) -> (r: (Endpoint, bool))
    ensures
        candidates@.len() > 0 ==> r.0 == candidates@[0] && !r.1,
        candidates@.len() == 0 ==> r.0 == fallback_endpoint() && r.1,
{
    if candidates.len() > 0 {
        (candidates[0], false)
    } else {
        (default_endpoint(), true)
    }
}

/// Why a probe failed.
#[derive(Clone, Copy, Debug, PartialEq, Eq, Structural)]
pub enum ProbeError {
    /// The server string resolved to no usable endpoint.
    ResolutionFailure,
    /// The connect attempt outlived its timeout.
    Timeout,
    /// The endpoint refused the connection.
    Refused,
    /// Any other I/O failure.
    OtherIo,
}

impl ProbeError {
    /// A short fixed description of the failure class.
    pub fn describe(&self) -> (r: &'static str)
        ensures
            *self is ResolutionFailure ==> r@ == "address resolution failed"@,
            *self is Timeout ==> r@ == "connection timed out"@,
            *self is Refused ==> r@ == "connection refused"@,
            *self is OtherIo ==> r@ == "I/O error"@,
    {
        match self {
            ProbeError::ResolutionFailure => "address resolution failed",
            ProbeError::Timeout => "connection timed out",
            ProbeError::Refused => "connection refused",
            ProbeError::OtherIo => "I/O error",
        }
    }
}

/// The outcome of one probe: the measured handshake time, or a failure
/// class. Transient; produced and consumed within one loop iteration.
#[derive(Clone, Copy, Debug, PartialEq, Eq, Structural)]
pub enum ProbeResult {
    Success { rtt: TimeSpan },
    Failure { error: ProbeError },
}

impl ProbeResult {
    /// A success carries a well-formed span.
    pub open spec fn wf(self) -> bool {
        self matches ProbeResult::Success { rtt } ==> rtt.wf()
    }

    /// Whether the probe succeeded.
    pub fn is_success(&self) -> (b: bool)
        ensures
            b == (*self is Success),
    {
        match self {
            ProbeResult::Success { .. } => true,
            ProbeResult::Failure { .. } => false,
        }
    }
}

} // verus!
