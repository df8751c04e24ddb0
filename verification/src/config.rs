//! The process-wide configuration: the target server string, the delay
//! between probes, and an optional bound on each connect attempt.
//! Immutable once built; an absent timeout means an unbounded wait.

use vstd::prelude::*;
use vstd::string::StringExecFns;
use crate::timespan::{TimeSpan, NANOS_PER_MILLI};

verus! {

/// Default delay between probes, in milliseconds.
pub const DEFAULT_INTERVAL_MS: u64 = 1000;

/// Default bound on one connect attempt, in milliseconds.
pub const DEFAULT_TIMEOUT_MS: u64 = 500;

/// The default probe target.
pub fn default_server_address() -> (r: String)
    ensures
        r@ == "1.1.1.1:443"@,
{
    String::from_str("1.1.1.1:443")
}

/// The prober's configuration, fixed for the process lifetime.
pub struct Config {
    /// The raw target string, as the user gave it.
    pub server: String,
    /// The delay between probes.
    pub interval: TimeSpan,
    /// The bound on one connect attempt; `None` waits without bound.
    pub timeout: Option<TimeSpan>,
}

impl Config {
    /// Both spans are well-formed.
    pub open spec fn wf(self) -> bool {
        &&& self.interval.wf()
        &&& (self.timeout matches Some(t) ==> t.wf())
    }

    /// Build a configuration from the target string and millisecond
    /// values, as the command line supplies them.
    pub fn new(server: String, interval_ms: u64, timeout_ms: Option<u64>) -> (c: Config)
        ensures
            c.wf(),
            c.server == server,
            c.interval.to_nanos() == interval_ms * (NANOS_PER_MILLI as int),
            (match timeout_ms {
                Some(ms) => c.timeout matches Some(t) && t.to_nanos() == ms * (
                NANOS_PER_MILLI as int),
                None => c.timeout is None,
            }),
    {
        let interval = TimeSpan::from_millis(interval_ms);
        let timeout = match timeout_ms {
            Some(ms) => Some(TimeSpan::from_millis(ms)),
            None => None,
        };
        Config { server, interval, timeout }
    }
}

} // verus!
