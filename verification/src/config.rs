//! The settings that the agent reads at startup.

use vstd::prelude::*;

verus! {

/// Where the backend is, how often the agent looks and reports, and which
/// modules run.
#[derive(Debug, Clone)]
pub struct AgentConfig {
    pub api_url: String,
    pub api_token: String,
    pub organization_id: String,
    /// Seconds between two passes over events, files and the blocklist.
    pub event_check_interval: u32,
    /// Seconds between two health checks.
    pub health_check_interval: u32,
    pub log_level: String,
    pub enable_esf: bool,
    pub enable_scanner: bool,
    pub enable_dns_filter: bool,
    pub dns_doh_provider: String,
    /// Largest file, in bytes, that the scanner reads.
    pub scanner_max_file_size: u64,
    /// Seconds after which a request to the backend is given up.
    pub threat_report_timeout: u32,
}

impl AgentConfig {
    /// The settings of an agent that has not been configured: every module on,
    /// the public backend, no credentials.
    pub open spec fn is_default(&self) -> bool {
        &&& self.api_url@ == "https://api.shielddesk.io"@
        &&& self.api_token@ == Seq::<char>::empty()
        &&& self.organization_id@ == Seq::<char>::empty()
        &&& self.event_check_interval == 5
        &&& self.health_check_interval == 60
        &&& self.log_level@ == "info"@
        &&& self.enable_esf
        &&& self.enable_scanner
        &&& self.enable_dns_filter
        &&& self.dns_doh_provider@ == "https://dns.google/dns-query"@
        &&& self.scanner_max_file_size == 104_857_600
        &&& self.threat_report_timeout == 30
    }
}

impl Default for AgentConfig {
    fn default() -> (config: Self)
        ensures
            config.is_default(),
    {
        AgentConfig {
            api_url: "https://api.shielddesk.io".to_owned(),
            api_token: String::new(),
            organization_id: String::new(),
            event_check_interval: 5,
            health_check_interval: 60,
            log_level: "info".to_owned(),
            enable_esf: true,
            enable_scanner: true,
            enable_dns_filter: true,
            dns_doh_provider: "https://dns.google/dns-query".to_owned(),
            scanner_max_file_size: 104_857_600,
            threat_report_timeout: 30,
        }
    }
}

} // verus!
