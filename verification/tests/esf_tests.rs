use chrono::Utc;
use shielddesk_agent::config::AgentConfig;
use shielddesk_agent::mac::esf::{ESFEvent, ESFMonitor};
use shielddesk_agent::reporter::{ActionTaken, Body, Reporter, Severity};

fn event(process_name: &str, file_path: Option<&str>) -> ESFEvent {
    ESFEvent {
        event_id: "1".to_string(),
        device_id: "test".to_string(),
        event_type: "file_write".to_string(),
        file_path: file_path.map(|p| p.to_string()),
        process_id: 1234,
        process_name: process_name.to_string(),
        action: "write".to_string(),
        timestamp: Utc::now().to_rfc3339(),
        user: "user".to_string(),
    }
}

fn reporter() -> Reporter {
    let config = AgentConfig {
        api_url: "https://api.test.com".to_string(),
        api_token: "test_token".to_string(),
        organization_id: "org_123".to_string(),
        ..Default::default()
    };
    Reporter::new(&config).unwrap()
}

#[test]
fn test_esf_monitor_creation() {
    let monitor = ESFMonitor::new("test-device").unwrap();
    assert_eq!(monitor.device_id(), "test-device");
    assert!(monitor.is_enabled());
}

#[test]
fn test_suspicious_detection() {
    let monitor = ESFMonitor::new("test-device").unwrap();
    let event = ESFEvent {
        event_id: "1".to_string(),
        device_id: "test".to_string(),
        event_type: "file_write".to_string(),
        file_path: Some("/tmp/suspicious".to_string()),
        process_id: 1234,
        process_name: "unknown".to_string(),
        action: "write".to_string(),
        timestamp: Utc::now().to_rfc3339(),
        user: "user".to_string(),
    };

    assert!(monitor.is_suspicious(&event));
}

#[test]
fn esf_process_names() {
    let monitor = ESFMonitor::new("test-device").unwrap();
    assert!(monitor.is_suspicious(&event("system", None)));
    assert!(monitor.is_suspicious(&event("my-kernel-helper", None)));
    assert!(monitor.is_suspicious(&event("launchd", Some("/Users/a/file"))));
    // the match tells upper from lower case
    assert!(!monitor.is_suspicious(&event("System", None)));
    assert!(!monitor.is_suspicious(&event("LAUNCHD", None)));
    assert!(!monitor.is_suspicious(&event("Safari", None)));
    assert!(!monitor.is_suspicious(&event("", None)));
}

#[test]
fn esf_watched_locations() {
    let monitor = ESFMonitor::new("test-device").unwrap();
    assert!(monitor.is_suspicious(&event("unknown", Some("/tmp"))));
    assert!(monitor.is_suspicious(&event("unknown", Some("/tmpfile"))));
    assert!(monitor.is_suspicious(&event("unknown", Some("/var/tmp/x"))));
    assert!(monitor.is_suspicious(&event("unknown", Some("/usr/local/bin/tool"))));
    // a prefix, not a part
    assert!(!monitor.is_suspicious(&event("unknown", Some("/private/tmp/x"))));
    assert!(!monitor.is_suspicious(&event("unknown", Some("/usr/local/lib"))));
    assert!(!monitor.is_suspicious(&event("unknown", Some(""))));
    assert!(!monitor.is_suspicious(&event("unknown", None)));
}

#[test]
fn esf_reports_exactly_the_suspicious_events() {
    let monitor = ESFMonitor::new("test-device").unwrap();
    let reporter = reporter();
    let mut first = event("launchd-fake", None);
    first.device_id = "dev-a".to_string();
    let benign = event("Safari", Some("/Users/a/notes.txt"));
    let mut second = event("curl", Some("/tmp/payload"));
    second.device_id = "dev-b".to_string();
    let requests = monitor.process_events(&reporter, vec![first, benign, second]);
    assert_eq!(requests.len(), 2);
    let expected = [("dev-a", "launchd-fake"), ("dev-b", "curl")];
    for (request, (device, name)) in requests.iter().zip(expected) {
        assert_eq!(request.url, "https://api.test.com/api/v1/threats");
        match &request.body {
            Body::Threat(report) => {
                assert_eq!(report.device_id, device);
                assert_eq!(report.threat_name, name);
                assert_eq!(report.threat_type, "suspicious_process");
                assert_eq!(report.severity, Severity::High);
                assert_eq!(report.action_taken, ActionTaken::Quarantined);
            }
            _ => panic!("not a threat report"),
        }
    }
}

#[test]
fn esf_no_events_no_reports() {
    let monitor = ESFMonitor::new("test-device").unwrap();
    assert!(monitor.process_events(&reporter(), Vec::new()).is_empty());
    assert!(monitor.process_events(&reporter(), vec![event("Safari", None)]).is_empty());
    assert!(monitor.collect_events(Vec::new()).is_empty());
    assert_eq!(monitor.collect_events(vec![event("a", None), event("b", None)]).len(), 2);
}

#[test]
fn esf_stopped_monitor_is_silent() {
    let mut monitor = ESFMonitor::new("test-device").unwrap();
    monitor.stop();
    assert!(!monitor.is_enabled());
    monitor.stop();
    assert!(!monitor.is_enabled());
    assert_eq!(monitor.device_id(), "test-device");
    assert!(monitor.collect_events(vec![event("launchd", None)]).is_empty());
    assert!(monitor.process_events(&reporter(), vec![event("launchd", None)]).is_empty());
}
