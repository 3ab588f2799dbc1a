//! What the agent tells the backend, and how each message is addressed.
//!
//! The reporter does not own a connection. It prepares each request in full
//! (address, credentials, body) and judges the reply; the program around the
//! library transmits the one and hands back the other.

use crate::config::AgentConfig;
use crate::error::{InitializationError, ReportError};
use crate::platform::Platform;
use crate::stamp::{fresh_id, is_random_uuid_text, is_utc_stamp, utc_now};
use vstd::prelude::*;

verus! {

/// `serde_json::Value`, which the library carries through without looking
/// inside.
#[verifier::external_type_specification]
#[verifier::external_body]
pub struct ExJsonValue(serde_json::Value);

/// `Clone` of `serde_json::Value`, which the crate derives: the copy is the
/// same JSON value.
pub assume_specification[ <serde_json::Value as Clone>::clone ](
    value: &serde_json::Value,
) -> (copy: serde_json::Value)
    ensures
        copy == *value,
;

/// How grave a threat is.
#[derive(Debug, Clone, Copy, PartialEq, Eq, Structural)]
pub enum Severity {
    Low,
    Medium,
    High,
    Critical,
}

/// What the agent did about a threat.
#[derive(Debug, Clone, Copy, PartialEq, Eq, Structural)]
pub enum ActionTaken {
    Quarantined,
    Blocked,
    Logged,
    /// Nothing was done; written `none` on the wire.
    NoAction,
}

impl Severity {
    /// The word that stands for this severity on the wire.
    pub open spec fn wire(self) -> Seq<char> {
        match self {
            Severity::Low => "low"@,
            Severity::Medium => "medium"@,
            Severity::High => "high"@,
            Severity::Critical => "critical"@,
        }
    }

    pub fn as_str(&self) -> (word: &'static str)
        ensures
            word@ == self.wire(),
    {
        match self {
            Severity::Low => "low",
            Severity::Medium => "medium",
            Severity::High => "high",
            Severity::Critical => "critical",
        }
    }
}

impl ActionTaken {
    /// The word that stands for this action on the wire.
    pub open spec fn wire(self) -> Seq<char> {
        match self {
            ActionTaken::Quarantined => "quarantined"@,
            ActionTaken::Blocked => "blocked"@,
            ActionTaken::Logged => "logged"@,
            ActionTaken::NoAction => "none"@,
        }
    }

    pub fn as_str(&self) -> (word: &'static str)
        ensures
            word@ == self.wire(),
    {
        match self {
            ActionTaken::Quarantined => "quarantined",
            ActionTaken::Blocked => "blocked",
            ActionTaken::Logged => "logged",
            ActionTaken::NoAction => "none",
        }
    }
}

/// One finding, as the backend receives it.
#[derive(Debug, Clone)]
pub struct ThreatReport {
    pub report_id: String,
    pub device_id: String,
    pub threat_type: String,
    pub threat_name: String,
    pub severity: Severity,
    pub file_path: Option<String>,
    pub process_id: Option<u32>,
    pub process_name: Option<String>,
    pub timestamp: String,
    pub action_taken: ActionTaken,
}

/// The agent's assertion that it is alive, at one point in time.
#[derive(Debug, Clone)]
pub struct HealthCheck {
    pub device_id: String,
    pub status: String,
    pub agent_version: String,
    pub os_version: String,
    pub timestamp: String,
}

/// A free-form event with its kind and the time it was sent.
#[derive(Debug, Clone)]
pub struct EventEnvelope {
    pub event_type: String,
    pub data: serde_json::Value,
    pub timestamp: String,
}

/// The JSON body of a request, before it is serialised.
#[derive(Debug, Clone)]
pub enum Body {
    Threat(ThreatReport),
    Health(HealthCheck),
    Event(EventEnvelope),
}

/// One HTTP header.
#[derive(Debug, Clone)]
pub struct Header {
    pub name: String,
    pub value: String,
}

/// A `POST` request that is ready to be transmitted.
#[derive(Debug, Clone)]
pub struct PostRequest {
    pub url: String,
    pub headers: Vec<Header>,
    pub body: Body,
}

/// What came of transmitting a request.
#[derive(Debug, Clone, Copy, PartialEq, Eq, Structural)]
pub enum Reply {
    /// The backend answered with this status.
    Status(u16),
    /// No answer arrived: the connection failed or the request timed out.
    NoResponse,
}

/// The address of the threats endpoint under the base address `api`.
pub open spec fn threats_url(api: Seq<char>) -> Seq<char> {
    api + "/api/v1/threats"@
}

/// The address of the health endpoint of `device` under `api`.
pub open spec fn health_url(api: Seq<char>, device: Seq<char>) -> Seq<char> {
    api + "/api/v1/devices/"@ + device + "/health"@
}

/// The address of the events endpoint of `device` under `api`.
pub open spec fn events_url(api: Seq<char>, device: Seq<char>) -> Seq<char> {
    api + "/api/v1/devices/"@ + device + "/events"@
}

/// The two headers that every request carries, in this order: the bearer
/// token, then the organisation.
pub open spec fn carries_credentials(headers: Seq<Header>, token: Seq<char>, org: Seq<char>) -> bool {
    &&& headers.len() == 2
    &&& headers[0].name@ == "Authorization"@
    &&& headers[0].value@ == "Bearer "@ + token
    &&& headers[1].name@ == "X-Organization-Id"@
    &&& headers[1].value@ == org
}

/// What the agent reports as the host's operating system.
pub open spec fn os_version_of(platform: Platform) -> Seq<char> {
    match platform {
        Platform::Windows => "Windows 10 or later"@,
        Platform::MacOs => "unknown"@,
    }
}

/// What a reply means for the report it answers: delivered on a status in
/// 200..=299, rejected on any other, and a transport failure without one.
pub open spec fn verdict_of(reply: Reply) -> Result<(), ReportError> {
    match reply {
        Reply::Status(status) => if 200 <= status && status <= 299 {
            Ok(())
        } else {
            Err(ReportError::Rejected(status))
        },
        Reply::NoResponse => Err(ReportError::Transport),
    }
}

impl ThreatReport {
    /// The report says that `name`, a threat of kind `kind`, was found on
    /// `device`. Severity and action are always `High` and `Quarantined`, and
    /// no file or process is named.
    pub open spec fn describes(&self, device: Seq<char>, name: Seq<char>, kind: Seq<char>) -> bool {
        &&& self.device_id@ == device
        &&& self.threat_name@ == name
        &&& self.threat_type@ == kind
        &&& self.severity == Severity::High
        &&& self.action_taken == ActionTaken::Quarantined
        &&& self.file_path is None
        &&& self.process_id is None
        &&& self.process_name is None
    }
}

impl HealthCheck {
    /// The check says that the agent on `device`, running on `platform`, is
    /// online.
    pub open spec fn describes(&self, device: Seq<char>, platform: Platform) -> bool {
        &&& self.device_id@ == device
        &&& self.status@ == "online"@
        &&& self.agent_version@ == "1.0.0"@
        &&& self.os_version@ == os_version_of(platform)
    }
}

/// The sole point through which the agent speaks to the backend. It holds
/// the backend's address, the credentials and the request timeout.
pub struct Reporter {
    api_url: String,
    api_token: String,
    organization_id: String,
    timeout_secs: u64,
}

impl Reporter {
    pub closed spec fn api_url_view(&self) -> Seq<char> {
        self.api_url@
    }

    pub closed spec fn api_token_view(&self) -> Seq<char> {
        self.api_token@
    }

    pub closed spec fn organization_view(&self) -> Seq<char> {
        self.organization_id@
    }

    pub closed spec fn timeout_view(&self) -> u64 {
        self.timeout_secs
    }

    /// `request` is addressed to `url` with this reporter's credentials.
    pub open spec fn addresses(&self, request: &PostRequest, url: Seq<char>) -> bool {
        &&& request.url@ == url
        &&& carries_credentials(request.headers@, self.api_token_view(), self.organization_view())
    }

    /// `request` posts, to the threats endpoint, a report that `name` of kind
    /// `kind` was found on `device`.
    pub open spec fn posts_threat(
        &self,
        request: &PostRequest,
        device: Seq<char>,
        name: Seq<char>,
        kind: Seq<char>,
    ) -> bool {
        &&& self.addresses(request, threats_url(self.api_url_view()))
        &&& request.body matches Body::Threat(report)
        &&& report.describes(device, name, kind)
        &&& is_random_uuid_text(report.report_id@)
        &&& is_utc_stamp(report.timestamp@)
    }

    /// A reporter for the backend that `config` names. It always succeeds: the
    /// connection itself is made by the caller.
    pub fn new(config: &AgentConfig) -> (made: Result<Reporter, InitializationError>)
        ensures
            made matches Ok(reporter) && {
                &&& reporter.api_url_view() == config.api_url@
                &&& reporter.api_token_view() == config.api_token@
                &&& reporter.organization_view() == config.organization_id@
                &&& reporter.timeout_view() == config.threat_report_timeout
            },
    {
        Ok(
            Reporter {
                api_url: config.api_url.clone(),
                api_token: config.api_token.clone(),
                organization_id: config.organization_id.clone(),
                timeout_secs: config.threat_report_timeout as u64,
            },
        )
    }

    pub fn api_url(&self) -> (url: &str)
        ensures
            url@ == self.api_url_view(),
    {
        self.api_url.as_str()
    }

    /// Seconds after which a request is to be given up.
    pub fn timeout_secs(&self) -> (secs: u64)
        ensures
            secs == self.timeout_view(),
    {
        self.timeout_secs
    }

    /// The two credential headers.
    fn credentials(&self) -> (headers: Vec<Header>)
        ensures
            carries_credentials(headers@, self.api_token_view(), self.organization_view()),
    {
        let bearer = String::from_str("Bearer ").concat(self.api_token.as_str());
        let mut headers: Vec<Header> = Vec::new();
        headers.push(Header { name: String::from_str("Authorization"), value: bearer });
        headers.push(
            Header {
                name: String::from_str("X-Organization-Id"),
                value: self.organization_id.clone(),
            },
        );
        headers
    }

    /// The report that `report_threat` sends, given its identifier and time.
    pub fn build_threat_report(
        device_id: &str,
        threat_name: &str,
        threat_type: &str,
        report_id: String,
        timestamp: String,
    ) -> (report: ThreatReport)
        ensures
            report.describes(device_id@, threat_name@, threat_type@),
            report.report_id == report_id,
            report.timestamp == timestamp,
    {
        ThreatReport {
            report_id,
            device_id: String::from_str(device_id),
            threat_type: String::from_str(threat_type),
            threat_name: String::from_str(threat_name),
            severity: Severity::High,
            file_path: None,
            process_id: None,
            process_name: None,
            timestamp,
            action_taken: ActionTaken::Quarantined,
        }
    }

    /// Prepares the report of a threat found on `device_id`: a new report with
    /// a fresh identifier and the current time, addressed to the threats
    /// endpoint.
    pub fn report_threat(&self, device_id: &str, threat_name: &str, threat_type: &str) -> (request:
        PostRequest)
        ensures
            self.posts_threat(&request, device_id@, threat_name@, threat_type@),
    {
        let report = Self::build_threat_report(
            device_id,
            threat_name,
            threat_type,
            fresh_id(),
            utc_now(),
        );
        self.send_threat_report(report)
    }

    /// Addresses `threat` to the threats endpoint.
    pub fn send_threat_report(&self, threat: ThreatReport) -> (request: PostRequest)
        ensures
            self.addresses(&request, threats_url(self.api_url_view())),
            request.body == Body::Threat(threat),
    {
        let url = self.api_url.clone().concat("/api/v1/threats");
        PostRequest { url, headers: self.credentials(), body: Body::Threat(threat) }
    }

    /// The health check that `send_health_check` sends, given its time.
    pub fn build_health_check(device_id: &str, platform: Platform, timestamp: String) -> (check:
        HealthCheck)
        ensures
            check.describes(device_id@, platform),
            check.timestamp == timestamp,
    {
        let os_version = match platform {
            Platform::Windows => "Windows 10 or later",
            Platform::MacOs => "unknown",
        };
        HealthCheck {
            device_id: String::from_str(device_id),
            status: String::from_str("online"),
            agent_version: String::from_str("1.0.0"),
            os_version: String::from_str(os_version),
            timestamp,
        }
    }

    /// Prepares a health check for `device_id`, stamped with the current time
    /// and addressed to the device's health endpoint.
    pub fn send_health_check(&self, device_id: &str, platform: Platform) -> (request: PostRequest)
        ensures
            self.addresses(&request, health_url(self.api_url_view(), device_id@)),
            request.body matches Body::Health(check) && check.describes(device_id@, platform)
                && is_utc_stamp(check.timestamp@),
    {
        let check = Self::build_health_check(device_id, platform, utc_now());
        let url = self.api_url.clone().concat("/api/v1/devices/").concat(device_id).concat(
            "/health",
        );
        PostRequest { url, headers: self.credentials(), body: Body::Health(check) }
    }

    /// The envelope that `send_event` sends, given its time.
    pub fn build_event(event_type: &str, event_data: &serde_json::Value, timestamp: String) -> (event:
        EventEnvelope)
        ensures
            event.event_type@ == event_type@,
            event.data == *event_data,
            event.timestamp == timestamp,
    {
        EventEnvelope {
            event_type: String::from_str(event_type),
            data: event_data.clone(),
            timestamp,
        }
    }

    /// Prepares an event of kind `event_type` with the payload `event_data`,
    /// stamped with the current time and addressed to the device's events
    /// endpoint.
    pub fn send_event(&self, device_id: &str, event_type: &str, event_data: &serde_json::Value) -> (request:
        PostRequest)
        ensures
            self.addresses(&request, events_url(self.api_url_view(), device_id@)),
            request.body matches Body::Event(event) && event.event_type@ == event_type@
                && event.data == *event_data && is_utc_stamp(event.timestamp@),
    {
        let event = Self::build_event(event_type, event_data, utc_now());
        let url = self.api_url.clone().concat("/api/v1/devices/").concat(device_id).concat(
            "/events",
        );
        PostRequest { url, headers: self.credentials(), body: Body::Event(event) }
    }

    /// Judges the reply to a request: delivered, rejected with a status, or
    /// lost in transport. Nothing is retried.
    pub fn settle(reply: Reply) -> (verdict: Result<(), ReportError>)
        ensures
            verdict == verdict_of(reply),
    {
        match reply {
            Reply::Status(status) => {
                if 200 <= status && status <= 299 {
                    Ok(())
                } else {
                    Err(ReportError::Rejected(status))
                }
            },
            Reply::NoResponse => Err(ReportError::Transport),
        }
    }
}

} // verus!
