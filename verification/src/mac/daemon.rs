//! The macOS agent: how it is put together at startup.

use crate::config::AgentConfig;
use crate::dns::DNSFilter;
use crate::mac::esf::ESFMonitor;
use crate::mac::scanner::FileScanner;
use crate::orchestrator::{Orchestrator, Schedule};
use crate::stamp::{fresh_id, is_random_uuid_text};
use vstd::prelude::*;

verus! {

/// `agent` is the macOS agent of the device `device`, as `config` and the
/// host allow it: the event monitor and the DNS filter run, the scanner runs
/// where the host has a quarantine directory, and both timers are due.
pub open spec fn is_started(
    agent: Orchestrator<ESFMonitor, FileScanner>,
    device: Seq<char>,
    config: AgentConfig,
    quarantine_dir: Option<&str>,
) -> bool {
    &&& agent.device_id@ == device
    &&& agent.monitor matches Some(monitor) && monitor.device_view() == device && monitor.enabled()
    &&& agent.filter matches Some(filter) && filter.device_view() == device && filter.enabled()
        && filter.blocklist_view() == Set::<Seq<char>>::empty()
    &&& quarantine_dir is None ==> agent.scanner is None
    &&& quarantine_dir matches Some(dir) ==> agent.scanner matches Some(scanner)
        && scanner.device_view() == device && scanner.quarantine_view() == dir@
        && scanner.enabled()
    &&& agent.schedule.activity.period_view() == config.event_check_interval * 1000
    &&& agent.schedule.health.period_view() == config.health_check_interval * 1000
    &&& agent.schedule.activity.due_view() == 0
    &&& agent.schedule.health.due_view() == 0
}

/// Puts the agent together under the identity `device_id`.
pub fn start_as(device_id: String, config: &AgentConfig, quarantine_dir: Option<&str>) -> (agent:
    Orchestrator<ESFMonitor, FileScanner>)
    requires
        config.event_check_interval > 0,
        config.health_check_interval > 0,
    ensures
        is_started(agent, device_id@, *config, quarantine_dir),
{
    let monitor = ESFMonitor::new(device_id.as_str());
    let scanner = FileScanner::new(device_id.as_str(), quarantine_dir);
    let filter = DNSFilter::new(device_id.as_str());
    let schedule = Schedule::new(config.event_check_interval, config.health_check_interval);
    Orchestrator::assemble(device_id, monitor, scanner, filter, schedule)
}

/// Puts the agent together under a fresh identity, which lasts for this run.
pub fn start(config: &AgentConfig, quarantine_dir: Option<&str>) -> (agent: Orchestrator<
    ESFMonitor,
    FileScanner,
>)
    requires
        config.event_check_interval > 0,
        config.health_check_interval > 0,
    ensures
        is_random_uuid_text(agent.device_id@),
        is_started(agent, agent.device_id@, *config, quarantine_dir),
{
    start_as(fresh_id(), config, quarantine_dir)
}

} // verus!
