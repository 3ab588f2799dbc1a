use shielddesk_agent::config::AgentConfig;
use shielddesk_agent::error::ReportError;
use shielddesk_agent::platform::Platform;
use shielddesk_agent::reporter::{
    ActionTaken, Body, PostRequest, Reply, Reporter, Severity,
};

fn config() -> AgentConfig {
    AgentConfig {
        api_url: "https://api.test.com".to_string(),
        api_token: "test_token".to_string(),
        organization_id: "org_123".to_string(),
        ..Default::default()
    }
}

fn assert_credentials(request: &PostRequest) {
    assert_eq!(request.headers.len(), 2);
    assert_eq!(request.headers[0].name, "Authorization");
    assert_eq!(request.headers[0].value, "Bearer test_token");
    assert_eq!(request.headers[1].name, "X-Organization-Id");
    assert_eq!(request.headers[1].value, "org_123");
}

fn assert_uuid(text: &str) {
    let chars: Vec<char> = text.chars().collect();
    assert_eq!(chars.len(), 36);
    for (i, c) in chars.iter().enumerate() {
        if i == 8 || i == 13 || i == 18 || i == 23 {
            assert_eq!(*c, '-');
        } else {
            assert!(c.is_ascii_digit() || ('a'..='f').contains(c), "{text}");
        }
    }
    assert_eq!(chars[14], '4');
    assert!(matches!(chars[19], '8' | '9' | 'a' | 'b'));
}

#[test]
fn test_reporter_creation() {
    let config = AgentConfig {
        api_url: "https://api.test.com".to_string(),
        api_token: "test_token".to_string(),
        organization_id: "org_123".to_string(),
        ..Default::default()
    };

    let reporter = Reporter::new(&config);
    assert!(reporter.is_ok());
}

#[test]
fn reporter_takes_address_and_timeout_from_config() {
    let reporter = Reporter::new(&config()).unwrap();
    assert_eq!(reporter.api_url(), "https://api.test.com");
    assert_eq!(reporter.timeout_secs(), 30);
}

#[test]
fn threat_report_request() {
    let reporter = Reporter::new(&config()).unwrap();
    let request = reporter.report_threat("dev-1", "Suspicious.File", "malware");
    assert_eq!(request.url, "https://api.test.com/api/v1/threats");
    assert_credentials(&request);
    match &request.body {
        Body::Threat(report) => {
            assert_uuid(&report.report_id);
            assert_eq!(report.device_id, "dev-1");
            assert_eq!(report.threat_name, "Suspicious.File");
            assert_eq!(report.threat_type, "malware");
            assert_eq!(report.severity, Severity::High);
            assert_eq!(report.action_taken, ActionTaken::Quarantined);
            assert_eq!(report.file_path, None);
            assert_eq!(report.process_id, None);
            assert_eq!(report.process_name, None);
            assert!(chrono::DateTime::parse_from_rfc3339(&report.timestamp).is_ok());
            assert!(report.timestamp.ends_with("+00:00"));
        }
        _ => panic!("not a threat report"),
    }
}

#[test]
fn each_report_has_its_own_identifier() {
    let reporter = Reporter::new(&config()).unwrap();
    let a = reporter.report_threat("dev-1", "n", "t");
    let b = reporter.report_threat("dev-1", "n", "t");
    match (&a.body, &b.body) {
        (Body::Threat(a), Body::Threat(b)) => assert_ne!(a.report_id, b.report_id),
        _ => panic!("not threat reports"),
    }
}

#[test]
fn built_threat_report_keeps_identifier_and_time() {
    let report = Reporter::build_threat_report(
        "dev",
        "name",
        "kind",
        "id-1".to_string(),
        "2024-05-06T07:08:09+00:00".to_string(),
    );
    assert_eq!(report.report_id, "id-1");
    assert_eq!(report.timestamp, "2024-05-06T07:08:09+00:00");
    assert_eq!(report.device_id, "dev");
    assert_eq!(report.threat_name, "name");
    assert_eq!(report.threat_type, "kind");
    let reporter = Reporter::new(&config()).unwrap();
    let request = reporter.send_threat_report(report);
    assert_eq!(request.url, "https://api.test.com/api/v1/threats");
    assert_credentials(&request);
    match &request.body {
        Body::Threat(report) => assert_eq!(report.report_id, "id-1"),
        _ => panic!("not a threat report"),
    }
}

#[test]
fn health_check_request() {
    let reporter = Reporter::new(&config()).unwrap();
    let request = reporter.send_health_check("dev-9", Platform::Windows);
    assert_eq!(request.url, "https://api.test.com/api/v1/devices/dev-9/health");
    assert_credentials(&request);
    match &request.body {
        Body::Health(check) => {
            assert_eq!(check.device_id, "dev-9");
            assert_eq!(check.status, "online");
            assert_eq!(check.agent_version, "1.0.0");
            assert_eq!(check.os_version, "Windows 10 or later");
            assert!(chrono::DateTime::parse_from_rfc3339(&check.timestamp).is_ok());
        }
        _ => panic!("not a health check"),
    }
    let request = reporter.send_health_check("dev-9", Platform::MacOs);
    match &request.body {
        Body::Health(check) => assert_eq!(check.os_version, "unknown"),
        _ => panic!("not a health check"),
    }
}

#[test]
fn event_request() {
    let reporter = Reporter::new(&config()).unwrap();
    let mut map = serde_json::Map::new();
    map.insert("pid".to_string(), serde_json::Value::from(17));
    let data = serde_json::Value::Object(map);
    let request = reporter.send_event("dev-2", "process_start", &data);
    assert_eq!(request.url, "https://api.test.com/api/v1/devices/dev-2/events");
    assert_credentials(&request);
    match &request.body {
        Body::Event(event) => {
            assert_eq!(event.event_type, "process_start");
            assert_eq!(event.data, data);
            assert!(chrono::DateTime::parse_from_rfc3339(&event.timestamp).is_ok());
        }
        _ => panic!("not an event"),
    }
    let event = Reporter::build_event("k", &serde_json::Value::Null, "t".to_string());
    assert_eq!(event.event_type, "k");
    assert_eq!(event.data, serde_json::Value::Null);
    assert_eq!(event.timestamp, "t");
}

#[test]
fn replies_are_judged_by_status() {
    assert_eq!(Reporter::settle(Reply::Status(200)), Ok(()));
    assert_eq!(Reporter::settle(Reply::Status(204)), Ok(()));
    assert_eq!(Reporter::settle(Reply::Status(299)), Ok(()));
    assert_eq!(Reporter::settle(Reply::Status(199)), Err(ReportError::Rejected(199)));
    assert_eq!(Reporter::settle(Reply::Status(300)), Err(ReportError::Rejected(300)));
    assert_eq!(Reporter::settle(Reply::Status(401)), Err(ReportError::Rejected(401)));
    assert_eq!(Reporter::settle(Reply::Status(500)), Err(ReportError::Rejected(500)));
    assert_eq!(Reporter::settle(Reply::Status(0)), Err(ReportError::Rejected(0)));
    assert_eq!(Reporter::settle(Reply::NoResponse), Err(ReportError::Transport));
}

#[test]
fn wire_words() {
    assert_eq!(Severity::Low.as_str(), "low");
    assert_eq!(Severity::Medium.as_str(), "medium");
    assert_eq!(Severity::High.as_str(), "high");
    assert_eq!(Severity::Critical.as_str(), "critical");
    assert_eq!(ActionTaken::Quarantined.as_str(), "quarantined");
    assert_eq!(ActionTaken::Blocked.as_str(), "blocked");
    assert_eq!(ActionTaken::Logged.as_str(), "logged");
    assert_eq!(ActionTaken::NoAction.as_str(), "none");
}
