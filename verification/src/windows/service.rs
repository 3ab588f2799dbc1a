//! The Windows agent: how it is put together at startup.

use crate::config::AgentConfig;
use crate::dns::DNSFilter;
use crate::orchestrator::{Orchestrator, Schedule};
use crate::stamp::{fresh_id, is_random_uuid_text};
use crate::windows::etw::ETWTracer;
use crate::windows::scanner::FileScanner;
use vstd::prelude::*;

verus! {

/// `agent` is the Windows agent of the device `device`, as `config` allows
/// it: the tracer, the scanner and the DNS filter run, and both timers are
/// due.
pub open spec fn is_started(
    agent: Orchestrator<ETWTracer, FileScanner>,
    device: Seq<char>,
    config: AgentConfig,
) -> bool {
    &&& agent.device_id@ == device
    &&& agent.monitor matches Some(tracer) && tracer.device_view() == device && tracer.enabled()
    &&& agent.scanner matches Some(scanner) && scanner.device_view() == device
        && scanner.enabled()
    &&& agent.filter matches Some(filter) && filter.device_view() == device && filter.enabled()
        && filter.blocklist_view() == Set::<Seq<char>>::empty()
    &&& agent.schedule.activity.period_view() == config.event_check_interval * 1000
    &&& agent.schedule.health.period_view() == config.health_check_interval * 1000
    &&& agent.schedule.activity.due_view() == 0
    &&& agent.schedule.health.due_view() == 0
}

/// Puts the agent together under the identity `device_id`.
pub fn start_as(device_id: String, config: &AgentConfig) -> (agent: Orchestrator<
    ETWTracer,
    FileScanner,
>)
    requires
        config.event_check_interval > 0,
        config.health_check_interval > 0,
    ensures
        is_started(agent, device_id@, *config),
{
    let tracer = ETWTracer::new(device_id.as_str());
    let scanner = FileScanner::new(device_id.as_str());
    let filter = DNSFilter::new(device_id.as_str());
    let schedule = Schedule::new(config.event_check_interval, config.health_check_interval);
    Orchestrator::assemble(device_id, tracer, scanner, filter, schedule)
}

/// Puts the agent together under a fresh identity, which lasts for this run.
pub fn start(config: &AgentConfig) -> (agent: Orchestrator<ETWTracer, FileScanner>)
    requires
        config.event_check_interval > 0,
        config.health_check_interval > 0,
    ensures
        is_random_uuid_text(agent.device_id@),
        is_started(agent, agent.device_id@, *config),
{
    start_as(fresh_id(), config)
}

} // verus!
