use shielddesk_agent::config::AgentConfig;
use shielddesk_agent::dns::DNSFilter;
use shielddesk_agent::error::InitializationError;
use shielddesk_agent::mac::daemon;
use shielddesk_agent::mac::esf::ESFMonitor;
use shielddesk_agent::orchestrator::{Orchestrator, Outcome, Schedule, Step, Tick, Timer};
use shielddesk_agent::windows::service;

fn steps_of(agent_steps: &mut shielddesk_agent::orchestrator::Pass, outcome: Outcome) -> Vec<Step> {
    let mut steps = Vec::new();
    let mut previous = None;
    while let Some(step) = agent_steps.advance(previous) {
        steps.push(step);
        previous = Some(outcome);
    }
    assert_eq!(agent_steps.advance(previous), None);
    steps
}

#[test]
fn timer_fires_on_its_grid() {
    let mut timer = Timer::new(5);
    assert_eq!(timer.period_ms(), 5000);
    assert_eq!(timer.next_due(), 0);
    assert!(timer.poll(0));
    assert_eq!(timer.next_due(), 5000);
    assert!(!timer.poll(0));
    assert!(!timer.poll(4999));
    assert_eq!(timer.next_due(), 5000);
    assert!(timer.poll(5000));
    assert_eq!(timer.next_due(), 10000);
    assert!(timer.poll(12345));
    assert_eq!(timer.next_due(), 15000);
}

#[test]
fn timer_coalesces_missed_ticks() {
    let mut timer = Timer::new(5);
    assert!(timer.poll(0));
    // five grid points went by: one firing, and the grid is kept
    assert!(timer.poll(27_000));
    assert_eq!(timer.next_due(), 30_000);
    assert!(!timer.poll(29_999));
    assert!(timer.poll(30_000));
    assert_eq!(timer.next_due(), 35_000);
}

#[test]
fn timer_at_the_end_of_time() {
    let mut timer = Timer::new(u32::MAX);
    assert!(timer.poll(u64::MAX));
    assert!(timer.next_due() > u64::MAX as u128);
    assert!(!timer.poll(u64::MAX));
}

#[test]
fn schedule_timers_are_independent() {
    let mut schedule = Schedule::new(5, 60);
    assert_eq!(schedule.poll(0), vec![Tick::Activity, Tick::Health]);
    assert_eq!(schedule.poll(1), Vec::<Tick>::new());
    assert_eq!(schedule.poll(5_000), vec![Tick::Activity]);
    // a late poll: the activity timer missed ticks, the health timer is on time
    assert_eq!(schedule.poll(60_000), vec![Tick::Activity, Tick::Health]);
    assert_eq!(schedule.health.next_due(), 120_000);
    assert_eq!(schedule.activity.next_due(), 65_000);
    let mut health_only = Timer::new(60);
    assert!(health_only.poll(0));
    assert!(health_only.poll(60_000));
    assert_eq!(health_only.next_due(), schedule.health.next_due());
}

#[test]
fn health_checks_once_per_interval() {
    let mut schedule = Schedule::new(7, 60);
    let mut health_ticks = Vec::new();
    let mut now = 0u64;
    while now <= 600_000 {
        for tick in schedule.poll(now) {
            if tick == Tick::Health {
                health_ticks.push(now);
            }
        }
        now += 250;
    }
    let expected: Vec<u64> = (0..=10).map(|k| k * 60_000).collect();
    assert_eq!(health_ticks, expected);
}

#[test]
fn mac_agent_starts_all_modules() {
    let config = AgentConfig::default();
    let agent = daemon::start(&config, Some("/q"));
    assert_eq!(agent.device_id.len(), 36);
    assert_eq!(agent.monitor.as_ref().unwrap().device_id(), agent.device_id);
    assert_eq!(agent.scanner.as_ref().unwrap().device_id(), agent.device_id);
    assert_eq!(agent.scanner.as_ref().unwrap().quarantine_dir(), "/q");
    assert_eq!(agent.filter.as_ref().unwrap().device_id(), agent.device_id);
    assert_eq!(agent.schedule.activity.period_ms(), 5_000);
    assert_eq!(agent.schedule.health.period_ms(), 60_000);
    let mut pass = agent.on_tick(Tick::Activity);
    assert_eq!(
        steps_of(&mut pass, Outcome::Done),
        vec![Step::ProcessEvents, Step::ScanFiles, Step::RefreshBlocklist]
    );
    let mut pass = agent.on_tick(Tick::Health);
    assert_eq!(steps_of(&mut pass, Outcome::Done), vec![Step::SendHealthCheck]);
}

#[test]
fn device_identity_is_new_on_every_start() {
    let config = AgentConfig::default();
    let a = service::start(&config);
    let b = service::start(&config);
    assert_ne!(a.device_id, b.device_id);
}

#[test]
fn failed_module_disables_only_itself() {
    let config = AgentConfig::default();
    let agent = daemon::start_as("dev-1".to_string(), &config, None);
    assert_eq!(agent.device_id, "dev-1");
    assert!(agent.monitor.is_some());
    assert!(agent.scanner.is_none());
    assert!(agent.filter.is_some());
    let mut pass = agent.on_tick(Tick::Activity);
    assert_eq!(steps_of(&mut pass, Outcome::Done), vec![Step::ProcessEvents, Step::RefreshBlocklist]);
    let mut pass = agent.on_tick(Tick::Health);
    assert_eq!(steps_of(&mut pass, Outcome::Done), vec![Step::SendHealthCheck]);
}

#[test]
fn failed_steps_do_not_block_the_rest() {
    let config = AgentConfig::default();
    let agent = service::start_as("dev-1".to_string(), &config);
    let mut pass = agent.on_tick(Tick::Activity);
    assert_eq!(
        steps_of(&mut pass, Outcome::Failed),
        vec![Step::ProcessEvents, Step::ScanFiles, Step::RefreshBlocklist]
    );
}

#[test]
fn agent_without_modules_still_reports_health() {
    let unavailable = InitializationError::Unavailable;
    let agent: Orchestrator<ESFMonitor, ()> = Orchestrator::assemble(
        "dev".to_string(),
        Err(unavailable),
        Err(unavailable),
        Err::<DNSFilter, InitializationError>(unavailable),
        Schedule::new(1, 1),
    );
    let mut pass = agent.on_tick(Tick::Activity);
    assert_eq!(steps_of(&mut pass, Outcome::Done), Vec::<Step>::new());
    let mut pass = agent.on_tick(Tick::Health);
    assert_eq!(steps_of(&mut pass, Outcome::Failed), vec![Step::SendHealthCheck]);
}
