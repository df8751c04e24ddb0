use netmon::config::{default_server_address, Config, DEFAULT_INTERVAL_MS, DEFAULT_TIMEOUT_MS};
use netmon::machine::{LoopAction, LoopState, Prober};
use netmon::probe::{
    default_endpoint, select_endpoint, Endpoint, HostAddress, ProbeError, ProbeResult,
};
use netmon::report::{
    failure_report, fallback_notice, report_line, success_report, version_report,
};
use netmon::timespan::TimeSpan;

#[test]
fn timespan_from_millis_splits_seconds_and_nanos() {
    let t = TimeSpan::from_millis(1500);
    assert_eq!(t.secs, 1);
    assert_eq!(t.nanos, 500_000_000);
    assert_eq!(t.total_nanos(), 1_500_000_000);
}

#[test]
fn timespan_from_millis_small_value() {
    let t = TimeSpan::from_millis(100);
    assert_eq!(t.secs, 0);
    assert_eq!(t.nanos, 100_000_000);
    assert!(!t.is_zero());
}

#[test]
fn timespan_zero() {
    let t = TimeSpan::from_millis(0);
    assert!(t.is_zero());
    assert_eq!(t.total_nanos(), 0);
}

#[test]
fn config_defaults_match_cli_defaults() {
    assert_eq!(default_server_address(), "1.1.1.1:443");
    assert_eq!(DEFAULT_INTERVAL_MS, 1000);
    assert_eq!(DEFAULT_TIMEOUT_MS, 500);
}

#[test]
fn config_new_carries_values() {
    let c = Config::new(String::from("example.com"), 2000, Some(250));
    assert_eq!(c.server, "example.com");
    assert_eq!(c.interval.secs, 2);
    assert_eq!(c.interval.nanos, 0);
    let t = c.timeout.unwrap();
    assert_eq!(t.secs, 0);
    assert_eq!(t.nanos, 250_000_000);
}

#[test]
fn config_new_without_timeout() {
    let c = Config::new(String::from("example.com"), 1000, None);
    assert!(c.timeout.is_none());
}

#[test]
fn select_endpoint_takes_first_candidate() {
    let first = Endpoint { host: HostAddress::V4 { a: 93, b: 184, c: 216, d: 34 }, port: 443 };
    let second = Endpoint {
        host: HostAddress::V6 { s0: 0, s1: 0, s2: 0, s3: 0, s4: 0, s5: 0, s6: 0, s7: 1 },
        port: 8080,
    };
    let candidates = vec![first, second];
    let (chosen, used_fallback) = select_endpoint(&candidates);
    assert_eq!(chosen, first);
    assert!(!used_fallback);
}

#[test]
fn select_endpoint_falls_back_when_resolution_yields_nothing() {
    let candidates: Vec<Endpoint> = Vec::new();
    let (chosen, used_fallback) = select_endpoint(&candidates);
    assert_eq!(chosen, default_endpoint());
    assert_eq!(chosen, Endpoint { host: HostAddress::V4 { a: 1, b: 1, c: 1, d: 1 }, port: 443 });
    assert!(used_fallback);
}

#[test]
fn probe_error_descriptions() {
    assert_eq!(ProbeError::ResolutionFailure.describe(), "address resolution failed");
    assert_eq!(ProbeError::Timeout.describe(), "connection timed out");
    assert_eq!(ProbeError::Refused.describe(), "connection refused");
    assert_eq!(ProbeError::OtherIo.describe(), "I/O error");
}

#[test]
fn probe_result_success_carries_measured_span() {
    let rtt = TimeSpan::from_millis(12);
    let outcome = ProbeResult::Success { rtt };
    assert!(outcome.is_success());
    match outcome {
        ProbeResult::Success { rtt: measured } => {
            assert_eq!(measured, rtt);
            assert_eq!(measured.total_nanos(), 12_000_000);
        }
        ProbeResult::Failure { .. } => unreachable!(),
    }
}

#[test]
fn report_lines_are_exact() {
    assert_eq!(success_report("example.com:443", "12ms"), "RTT to example.com:443: 12ms");
    assert_eq!(
        failure_report("example.com:443", "connection refused"),
        "Failed to ping example.com:443: connection refused"
    );
}

#[test]
fn report_line_picks_side_by_outcome() {
    let ok = ProbeResult::Success { rtt: TimeSpan::from_millis(3) };
    let bad = ProbeResult::Failure { error: ProbeError::Timeout };
    assert_eq!(report_line("h:443", &ok, "3ms"), "RTT to h:443: 3ms");
    assert_eq!(
        report_line("h:443", &bad, "connection timed out"),
        "Failed to ping h:443: connection timed out"
    );
}

#[test]
fn fallback_notice_names_both_addresses() {
    assert_eq!(
        fallback_notice("nonsense:443"),
        "Invalid server address: nonsense:443\nUsing default address 1.1.1.1:443"
    );
}

#[test]
fn version_report_line() {
    assert_eq!(version_report("netmon", "0.1.0"), "netmon version: 0.1.0");
}

#[test]
fn loop_cycles_probe_report_sleep_forever() {
    let mut prober = Prober::new();
    assert_eq!(prober.state, LoopState::Idle);

    let action = prober.start();
    assert_eq!(action, LoopAction::Probe);
    assert_eq!(prober.state, LoopState::Probing);

    let outcome = ProbeResult::Success { rtt: TimeSpan::from_millis(7) };
    let action = prober.finish_probe(outcome);
    assert_eq!(action, LoopAction::Report { outcome });
    assert_eq!(prober.state, LoopState::Reporting);

    let action = prober.finish_report();
    assert_eq!(action, LoopAction::Sleep);
    assert_eq!(prober.state, LoopState::Sleeping);

    let action = prober.finish_sleep();
    assert_eq!(action, LoopAction::Probe);
    assert_eq!(prober.state, LoopState::Probing);

    let failure = ProbeResult::Failure { error: ProbeError::Refused };
    let action = prober.finish_probe(failure);
    assert_eq!(action, LoopAction::Report { outcome: failure });
    assert_eq!(prober.state, LoopState::Reporting);

    let action = prober.finish_report();
    assert_eq!(action, LoopAction::Sleep);
    assert_eq!(prober.state, LoopState::Sleeping);
}
