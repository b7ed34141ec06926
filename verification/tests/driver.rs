//! The run driver and the counters: tallying, report lines, and the
//! run-end balance.

use flowcheck::outcome::status_token;
use flowcheck::outcome::FailureCause;
use flowcheck::outcome::ProbeOutcome;
use flowcheck::report::report_line;
use flowcheck::run::RunDriver;
use flowcheck::stats::Stats;

#[test]
fn stats_add_methods() {
    let mut s = Stats::new();
    s.add_flow();
    s.add_flow();
    s.add_flowok();
    s.add_unresolved();
    s.add_other();
    assert_eq!(s.lines, 2);
    assert_eq!(s.flow_ok, 1);
    assert_eq!(s.unresolved, 1);
    assert_eq!(s.other, 1);
}

#[test]
fn status_tokens() {
    assert_eq!(status_token(&ProbeOutcome::Connected), "OK");
    assert_eq!(status_token(&ProbeOutcome::Unresolved), "HostnameUnresolved");
    assert_eq!(
        status_token(&ProbeOutcome::ConnectFailed(FailureCause::Refused)),
        "ConnectionRefused"
    );
    assert_eq!(status_token(&ProbeOutcome::ConnectFailed(FailureCause::TimedOut)), "TimedOut");
    assert_eq!(
        status_token(&ProbeOutcome::ConnectFailed(FailureCause::PermissionDenied)),
        "PermissionDenied"
    );
    assert_eq!(
        status_token(&ProbeOutcome::ConnectFailed(FailureCause::Unreachable)),
        "HostUnreachable"
    );
    assert_eq!(
        status_token(&ProbeOutcome::ConnectFailed(FailureCause::Other(String::from(
            "BrokenPipe"
        )))),
        "BrokenPipe"
    );
}

#[test]
fn report_line_format() {
    let rec = flowcheck::manifest::parse_line("FLOW0001=google.com:80").expect("valid line");
    let line = report_line(&rec, &ProbeOutcome::Connected);
    assert_eq!(line, "FLOW0001 google.com:80 OK");
}

#[test]
fn driver_ok_flow() {
    let mut driver = RunDriver::new();
    let rec = driver.on_line("FLOW0001=127.0.0.1:9").expect("valid line");
    let line = driver.on_outcome(&rec, &ProbeOutcome::Connected);
    assert_eq!(line, "FLOW0001 127.0.0.1:9 OK");
    assert_eq!(driver.stats.flow_ok, 1);
    assert_eq!(driver.stats.lines, 1);
    assert_eq!(driver.stats.unresolved, 0);
    assert_eq!(driver.stats.other, 0);
}

#[test]
fn driver_unresolved_never_other() {
    let mut driver = RunDriver::new();
    let rec = driver.on_line("FLOW0001=no-such-host.invalid:80").expect("valid line");
    let line = driver.on_outcome(&rec, &ProbeOutcome::Unresolved);
    assert_eq!(line, "FLOW0001 no-such-host.invalid:80 HostnameUnresolved");
    assert_eq!(driver.stats.unresolved, 1);
    assert_eq!(driver.stats.other, 0);
    assert_eq!(driver.stats.flow_ok, 0);
}

#[test]
fn driver_six_failing_flows() {
    let manifest = [
        "# expected flows for this host",
        "FLOW0001=a.example:80",
        "FLOW0002=b.example:514",
        "",
        "FLOW0003=c.example:22",
        "not a flow line",
        "FLOW0004=203.0.113.5:443",
        "FLOW0005=d.example:25",
        "FLOW0006=e.example:8080",
    ];
    let outcomes = [
        ProbeOutcome::Unresolved,
        ProbeOutcome::ConnectFailed(FailureCause::Refused),
        ProbeOutcome::ConnectFailed(FailureCause::TimedOut),
        ProbeOutcome::ConnectFailed(FailureCause::Unreachable),
        ProbeOutcome::Unresolved,
        ProbeOutcome::ConnectFailed(FailureCause::PermissionDenied),
    ];
    let mut driver = RunDriver::new();
    let mut reports: Vec<String> = Vec::new();
    let mut next_outcome: usize = 0;
    for raw in manifest.iter() {
        if let Some(rec) = driver.on_line(raw) {
            reports.push(driver.on_outcome(&rec, &outcomes[next_outcome]));
            next_outcome += 1;
        }
    }
    assert_eq!(driver.stats.lines, 6);
    assert_eq!(reports.len(), 6);
    assert_eq!(driver.stats.flow_ok, 0);
    for line in reports.iter() {
        assert!(!line.ends_with(" OK"));
    }
    assert_eq!(
        driver.stats.lines,
        driver.stats.flow_ok + driver.stats.unresolved + driver.stats.other
    );
}

#[test]
fn driver_skipped_lines_change_nothing() {
    let mut driver = RunDriver::new();
    assert!(driver.on_line("# comment").is_none());
    assert!(driver.on_line("   ").is_none());
    assert!(driver.on_line("no separator here").is_none());
    assert!(driver.on_line("a=b=c").is_none());
    assert_eq!(driver.stats.lines, 0);
    assert_eq!(driver.stats.flow_ok, 0);
    assert_eq!(driver.stats.unresolved, 0);
    assert_eq!(driver.stats.other, 0);
}

#[test]
fn driver_counters_balance_on_mixed_run() {
    let mut driver = RunDriver::new();
    let outcomes = [
        ProbeOutcome::Connected,
        ProbeOutcome::Unresolved,
        ProbeOutcome::ConnectFailed(FailureCause::Refused),
        ProbeOutcome::Connected,
    ];
    let lines = [
        "FLOW0001=a.example:80",
        "FLOW0002=b.example:81",
        "FLOW0003=c.example:82",
        "FLOW0004=d.example:83",
    ];
    for (raw, outcome) in lines.iter().zip(outcomes.iter()) {
        let rec = driver.on_line(raw).expect("valid line");
        driver.on_outcome(&rec, outcome);
    }
    assert_eq!(driver.stats.lines, 4);
    assert_eq!(
        driver.stats.lines,
        driver.stats.flow_ok + driver.stats.unresolved + driver.stats.other
    );
}

#[test]
fn summary_format() {
    let mut s = Stats::new();
    s.add_flow();
    s.add_flow();
    s.add_flow();
    s.add_flowok();
    s.add_unresolved();
    s.add_other();
    assert_eq!(s.summary(), "(Lines:3, OK:1, Unresolved:1, Other: 1)");
}

#[test]
fn summary_of_empty_run() {
    let s = Stats::new();
    assert_eq!(s.summary(), "(Lines:0, OK:0, Unresolved:0, Other: 0)");
}

#[test]
fn decimal_rendering() {
    assert_eq!(flowcheck::decimal::u64_to_decimal(0), "0");
    assert_eq!(flowcheck::decimal::u64_to_decimal(10), "10");
    assert_eq!(flowcheck::decimal::u64_to_decimal(907), "907");
    assert_eq!(
        flowcheck::decimal::u64_to_decimal(u64::MAX),
        "18446744073709551615"
    );
}
