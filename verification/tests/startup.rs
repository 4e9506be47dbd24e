use pihole_exporter::startup::{startup_probe_timeout, HostProbe, ProbeOutcome, ProbeStep, TimeSpan};

fn span(secs: u64, nanos: u32) -> TimeSpan {
    TimeSpan { secs, nanos }
}

#[test]
fn probe_timeout_doubles_with_five_second_floor() {
    let t = startup_probe_timeout(span(5, 0));
    assert_eq!((t.secs, t.nanos), (10, 0));
    let t = startup_probe_timeout(span(1, 0));
    assert_eq!((t.secs, t.nanos), (5, 0));
    let t = startup_probe_timeout(span(2, 600_000_000));
    assert_eq!((t.secs, t.nanos), (5, 200_000_000));
    let t = startup_probe_timeout(span(0, 0));
    assert_eq!((t.secs, t.nanos), (5, 0));
}

#[test]
fn probe_timeout_saturates() {
    let t = startup_probe_timeout(span(u64::MAX, 999_999_999));
    assert_eq!((t.secs, t.nanos), (u64::MAX, 999_999_999));
    let t = startup_probe_timeout(span(u64::MAX / 2 + 1, 0));
    assert_eq!((t.secs, t.nanos), (u64::MAX, 999_999_999));
    let t = startup_probe_timeout(span(u64::MAX / 2, 0));
    assert_eq!((t.secs, t.nanos), (u64::MAX - 1, 0));
}

#[test]
fn probe_retries_then_gives_up() {
    let mut p = HostProbe::new();
    match p.on_outcome("pi.hole", ProbeOutcome::Failed("refused".to_string()), 10) {
        ProbeStep::Retry { delay_millis } => assert_eq!(delay_millis, 500),
        _ => panic!("expected a retry"),
    }
    match p.on_outcome("pi.hole", ProbeOutcome::TimedOut, 10) {
        ProbeStep::Retry { delay_millis } => assert_eq!(delay_millis, 1000),
        _ => panic!("expected a retry"),
    }
    match p.on_outcome("pi.hole", ProbeOutcome::TimedOut, 10) {
        ProbeStep::GaveUp(msg) => assert_eq!(
            msg,
            "failed to connect to Pi-hole host pi.hole after 3 attempts: connection timed out after 10s"
        ),
        _ => panic!("expected to give up"),
    }
}

#[test]
fn probe_stops_on_success() {
    let mut p = HostProbe::new();
    assert!(matches!(
        p.on_outcome("h", ProbeOutcome::Failed("x".to_string()), 5),
        ProbeStep::Retry { .. }
    ));
    assert!(matches!(
        p.on_outcome("h", ProbeOutcome::Connected, 5),
        ProbeStep::Connected
    ));
}

#[test]
fn probe_reports_last_failure() {
    let mut p = HostProbe::new();
    p.on_outcome("h", ProbeOutcome::TimedOut, 5);
    p.on_outcome("h", ProbeOutcome::TimedOut, 5);
    match p.on_outcome("h", ProbeOutcome::Failed("auth failed".to_string()), 5) {
        ProbeStep::GaveUp(msg) => {
            assert_eq!(msg, "failed to connect to Pi-hole host h after 3 attempts: auth failed")
        }
        _ => panic!("expected to give up"),
    }
}
