use oomhero::arguments::CheckerResult;
use oomhero::events::{log_action, LogAction, Priority};
use oomhero::http_signals_sender::{Header, HttpNotificationConfig, HttpSignalSender};
use oomhero::metrics::{GaugeValue, Server};
use oomhero::processes::{Process, Resource, StallSeverity, StallWindow};
use oomhero::signals::{default_critical_signal, default_warning_signal, SignalSenders};
use oomhero::unix_signals_sender::UnixSignalSender;

#[test]
fn signal_names() {
    assert_eq!(default_warning_signal(), 10);
    assert_eq!(default_critical_signal(), 12);
}

#[test]
fn unix_sender_chooses_signal() {
    let s = UnixSignalSender::new(1, 2);
    assert_eq!(s.signal_for(CheckerResult::NoMatch), None);
    assert_eq!(s.signal_for(CheckerResult::Warning), Some(1));
    assert_eq!(s.signal_for(CheckerResult::Critical), Some(2));
    let d = UnixSignalSender::default();
    assert_eq!((d.warning, d.critical), (10, 12));
}

fn config() -> HttpNotificationConfig {
    HttpNotificationConfig {
        url: "https://hooks.example.com/alerts".to_string(),
        headers: vec![
            Header { name: "Authorization".to_string(), value: "Bearer token123".to_string() },
            Header { name: "Content-Type".to_string(), value: "application/json".to_string() },
        ],
    }
}

#[test]
fn http_sender_request() {
    let s = HttpSignalSender::new(config());
    assert_eq!(s.url(), "https://hooks.example.com/alerts");
    assert_eq!(
        s.headers(),
        vec![
            ("Authorization".to_string(), "Bearer token123".to_string()),
            ("Content-Type".to_string(), "application/json".to_string()),
        ]
    );
}

#[test]
fn senders_choice() {
    assert!(matches!(SignalSenders::new(None, 3, 4), SignalSenders::Unix(u) if u.warning == 3 && u.critical == 4));
    assert!(matches!(SignalSenders::new(Some(config()), 3, 4), SignalSenders::Http(_)));
}

#[test]
fn priority_default_is_low() {
    assert_eq!(Priority::default(), Priority::Low);
}

#[test]
fn metrics_gauges() {
    let p = Process { pid: 42, cmdline: "/bin/app".to_string() };
    let updates = Server {}.report_collected_data(&p);
    assert_eq!(updates.len(), 26);
    assert_eq!(updates[0].name, "memory_usage");
    assert_eq!(updates[0].value, GaugeValue::MemoryUsage);
    assert_eq!(
        updates[0].labels,
        vec![("pid".to_string(), "42".to_string()), ("cmdline".to_string(), "/bin/app".to_string())]
    );
    assert_eq!(updates[1].name, "oom_score");
    assert_eq!(updates[2].name, "memory_pressure");
    assert_eq!(
        updates[2].value,
        GaugeValue::Pressure(Resource::Memory, StallSeverity::Partial, StallWindow::Avg10)
    );
    assert_eq!(
        updates[2].labels[2..].to_vec(),
        vec![
            ("severity_level".to_string(), "some".to_string()),
            ("severity_window".to_string(), "avg10".to_string())
        ]
    );
    assert_eq!(updates[10].name, "io_pressure");
    assert_eq!(
        updates[10].value,
        GaugeValue::Pressure(Resource::Io, StallSeverity::Partial, StallWindow::Avg10)
    );
    assert_eq!(updates[25].name, "cpu_pressure");
    assert_eq!(
        updates[25].value,
        GaugeValue::Pressure(Resource::Cpu, StallSeverity::Full, StallWindow::Total)
    );
    assert_eq!(updates[25].labels[3].1, "total");
}

#[test]
fn event_logger_actions() {
    assert_eq!(log_action(Priority::High, None), LogAction::Warn);
    assert_eq!(log_action(Priority::High, Some(false)), LogAction::Warn);
    assert_eq!(log_action(Priority::Low, None), LogAction::Info);
    assert_eq!(log_action(Priority::Low, Some(true)), LogAction::Info);
    assert_eq!(log_action(Priority::Low, Some(false)), LogAction::Skip);
}

#[test]
fn notification_severity_names() {
    assert_eq!(CheckerResult::Warning.variant_name(), "Warning");
    assert_eq!(CheckerResult::Critical.variant_name(), "Critical");
    assert_eq!(CheckerResult::NoMatch.variant_name(), "None");
}
