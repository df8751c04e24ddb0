//! The lines the prober emits, built and pinned down character by
//! character. Rendering a measured duration or an I/O error as text is
//! the caller's display concern; these functions fix everything around it.

use vstd::prelude::*;
use vstd::string::StringExecFns;
use crate::probe::ProbeResult;

verus! {

/// The line for a successful probe: `RTT to <server>: <rtt_text>`.
pub fn success_report(server: &str, rtt_text: &str) -> (r: String)
    ensures
        r@ == "RTT to "@ + server@ + ": "@ + rtt_text@,
{
    let mut out = String::from_str("RTT to ");
    out.append(server);
    out.append(": ");
    out.append(rtt_text);
    out
}

/// The line for a failed probe: `Failed to ping <server>: <error_text>`.
pub fn failure_report(server: &str, error_text: &str) -> (r: String)
    ensures
        r@ == "Failed to ping "@ + server@ + ": "@ + error_text@,
{
    let mut out = String::from_str("Failed to ping ");
    out.append(server);
    out.append(": ");
    out.append(error_text);
    out
}

/// The report line for a probe outcome: the success line when the probe
/// succeeded, the failure line when it did not. `text` is the rendered
/// duration or error.
pub fn report_line(server: &str, outcome: &ProbeResult, text: &str) -> (r: String)
    ensures
        *outcome is Success ==> r@ == "RTT to "@ + server@ + ": "@ + text@,
        *outcome is Failure ==> r@ == "Failed to ping "@ + server@ + ": "@ + text@,
{
    match outcome {
        ProbeResult::Success { .. } => success_report(server, text),
        ProbeResult::Failure { .. } => failure_report(server, text),
    }
}

/// The diagnostic emitted when resolution yields no candidate and the
/// prober falls back to the fixed default endpoint.
pub fn fallback_notice(formatted: &str) -> (r: String)
    ensures
        r@ == "Invalid server address: "@ + formatted@
            + "\nUsing default address 1.1.1.1:443"@,
{
    let mut out = String::from_str("Invalid server address: ");
    out.append(formatted);
    out.append("\nUsing default address 1.1.1.1:443");
    out
}

/// The line for the version command: `<name> version: <version>`.
pub fn version_report(name: &str, version: &str) -> (r: String)
    ensures
        r@ == name@ + " version: "@ + version@,
{
    let mut out = String::from_str(name);
    out.append(" version: ");
    out.append(version);
    out
}

} // verus!
