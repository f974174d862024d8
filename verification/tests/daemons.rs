use oomhero::arguments::CheckerResult;
use oomhero::daemons::{Decision, Monitor, ScanStats};

const SEC: u128 = 1_000_000_000;

#[test]
fn monitor_defaults() {
    let m = Monitor::new();
    assert_eq!(m.loop_interval(), 100_000_000);
    assert_eq!(m.cooldown_interval(), 30 * SEC);
    assert_eq!(m.warning_signal(), 10);
    assert_eq!(m.critical_signal(), 12);
}

#[test]
fn monitor_builders() {
    let m = Monitor::new()
        .with_loop_interval(10)
        .with_cooldown_interval(60 * SEC)
        .with_warning_signal(1)
        .with_critical_signal(9);
    assert_eq!(m.loop_interval(), 10);
    assert_eq!(m.cooldown_interval(), 60 * SEC);
    assert_eq!(m.warning_signal(), 1);
    assert_eq!(m.critical_signal(), 9);
}

#[test]
fn monitor_excludes_pause_container_and_itself() {
    let m = Monitor::new();
    assert!(!m.is_monitored(1, 77));
    assert!(!m.is_monitored(77, 77));
    assert!(m.is_monitored(2, 77));
}

#[test]
fn monitor_within_limits() {
    let mut m = Monitor::new();
    assert_eq!(m.assess(2, false, false, 0), Decision::WithinLimits);
}

#[test]
fn monitor_warning_signal() {
    let mut m = Monitor::new();
    assert_eq!(
        m.assess(2, true, false, 0),
        Decision::Send { signal: 10, severity: CheckerResult::Warning }
    );
}

#[test]
fn monitor_critical_precedence() {
    let mut m = Monitor::new().with_critical_signal(9);
    assert_eq!(
        m.assess(2, true, true, 0),
        Decision::Send { signal: 9, severity: CheckerResult::Critical }
    );
}

#[test]
fn monitor_cooldown_enforcement() {
    let mut m = Monitor::new().with_critical_signal(9).with_cooldown_interval(60 * SEC);
    let first = m.assess(2, false, true, SEC);
    assert_eq!(first, Decision::Send { signal: 9, severity: CheckerResult::Critical });
    m.signal_sent(2, 9, SEC);
    for t in [SEC, 2 * SEC, 60 * SEC] {
        assert_eq!(
            m.assess(2, false, true, t),
            Decision::CoolingDown { signal: 9, severity: CheckerResult::Critical }
        );
    }
    assert_eq!(
        m.assess(2, false, true, 61 * SEC),
        Decision::Send { signal: 9, severity: CheckerResult::Critical }
    );
    assert_eq!(
        m.assess(3, false, true, 2 * SEC),
        Decision::Send { signal: 9, severity: CheckerResult::Critical }
    );
}

#[test]
fn monitor_escalation_not_held_back() {
    let mut m = Monitor::new();
    m.signal_sent(2, 10, 0);
    assert_eq!(
        m.assess(2, true, false, SEC),
        Decision::CoolingDown { signal: 10, severity: CheckerResult::Warning }
    );
    assert_eq!(
        m.assess(2, true, true, SEC),
        Decision::Send { signal: 12, severity: CheckerResult::Critical }
    );
}

#[test]
fn scan_stats_report_once_a_minute() {
    let mut s = ScanStats::new(0);
    for i in 1..=119 {
        assert_eq!(s.scan_finished(i * SEC / 2), None);
    }
    assert_eq!(s.passes, 119);
    assert_eq!(s.scan_finished(60 * SEC), Some(2));
    assert_eq!(s.passes, 0);
    assert_eq!(s.last_report, 60 * SEC);
}

#[test]
fn monitor_failed_send_is_retried() {
    let mut m = Monitor::new().with_critical_signal(9);
    m.send_finished(2, 9, SEC, false);
    assert_eq!(
        m.assess(2, false, true, 2 * SEC),
        Decision::Send { signal: 9, severity: CheckerResult::Critical }
    );
    m.send_finished(2, 9, 2 * SEC, true);
    assert_eq!(
        m.assess(2, false, true, 3 * SEC),
        Decision::CoolingDown { signal: 9, severity: CheckerResult::Critical }
    );
}
