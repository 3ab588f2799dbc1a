//! The agent's main loop, as far as it decides: which modules run, when each
//! of the two timers fires, and what a tick sets in motion.
//!
//! The program around the library waits, performs each step and reports how
//! it ended; nothing here sleeps or does I/O.

use crate::dns::DNSFilter;
use crate::error::InitializationError;
use vstd::prelude::*;

verus! {

/// The two periodic occasions on which the agent acts.
#[derive(Debug, Clone, Copy, PartialEq, Eq, Structural)]
pub enum Tick {
    /// Time to look at events, files and the blocklist.
    Activity,
    /// Time to tell the backend that the agent is alive.
    Health,
}

/// One thing to do in answer to a tick.
#[derive(Debug, Clone, Copy, PartialEq, Eq, Structural)]
pub enum Step {
    ProcessEvents,
    ScanFiles,
    RefreshBlocklist,
    SendHealthCheck,
}

/// How a step ended.
#[derive(Debug, Clone, Copy, PartialEq, Eq, Structural)]
pub enum Outcome {
    Done,
    Failed,
}

/// The steps that a tick sets in motion, in order, for an agent with the
/// given modules. A health tick always asks for one health check, whichever
/// modules run; an activity tick visits the running modules in the fixed
/// order events, files, blocklist.
pub open spec fn plan(tick: Tick, monitor: bool, scanner: bool, filter: bool) -> Seq<Step> {
    match tick {
        Tick::Health => seq![Step::SendHealthCheck],
        Tick::Activity => {
            (if monitor {
                seq![Step::ProcessEvents]
            } else {
                Seq::<Step>::empty()
            }) + (if scanner {
                seq![Step::ScanFiles]
            } else {
                Seq::<Step>::empty()
            }) + (if filter {
                seq![Step::RefreshBlocklist]
            } else {
                Seq::<Step>::empty()
            })
        },
    }
}

/// The first point of the grid `due, due + period, due + 2 * period, ..` that
/// lies after `now`.
pub open spec fn next_due_after(due: nat, period: nat, now: nat) -> nat
    recommends
        period > 0,
        due <= now,
{
    due + (((now - due) / (period as int)) + 1) as nat * period
}

/// A timer that fires on a fixed grid of times. Times are milliseconds since
/// the agent started. A timer that is polled late fires once for all the grid
/// points it missed and goes on from the next one: ticks neither pile up nor
/// drift.
#[derive(Debug, Clone, Copy)]
pub struct Timer {
    period: u64,
    due: u128,
}

impl Timer {
    pub closed spec fn period_view(&self) -> nat {
        self.period as nat
    }

    pub closed spec fn due_view(&self) -> nat {
        self.due as nat
    }

    /// The timer has a period, and its next firing is within what a poll can
    /// reach.
    #[verifier::type_invariant]
    spec fn wf(self) -> bool {
        self.period > 0 && self.due <= u64::MAX as nat + self.period as nat
    }

    /// The timer fires when polled at `now`.
    pub open spec fn is_due(&self, now: nat) -> bool {
        self.due_view() <= now
    }

    /// What the timer is after a poll at `now`.
    pub open spec fn polled(before: Timer, now: nat, after: Timer) -> bool {
        &&& after.period_view() == before.period_view()
        &&& after.due_view() == if before.is_due(now) {
            next_due_after(before.due_view(), before.period_view(), now)
        } else {
            before.due_view()
        }
    }

    /// A timer of period `period_secs` seconds that fires first at once. A
    /// timer needs a period: there is none of period zero.
    pub fn new(period_secs: u32) -> (timer: Timer)
        requires
            period_secs > 0,
        ensures
            timer.period_view() == period_secs * 1000,
            timer.due_view() == 0,
    {
        Timer { period: period_secs as u64 * 1000, due: 0 }
    }

    /// Milliseconds between two firings.
    pub fn period_ms(&self) -> (period: u64)
        ensures
            period == self.period_view(),
    {
        self.period
    }

    /// The time of the next firing.
    pub fn next_due(&self) -> (due: u128)
        ensures
            due == self.due_view(),
    {
        self.due
    }

    /// Polls the timer at time `now`: whether it fires. A timer that fires is
    /// set to the first point of its grid after `now`.
    pub fn poll(&mut self, now: u64) -> (fired: bool)
        ensures
            fired == old(self).is_due(now as nat),
            Self::polled(*old(self), now as nat, *final(self)),
    {
        proof {
            use_type_invariant(&*self);
        }
        if self.due > now as u128 {
            return false;
        }
        let behind: u128 = now as u128 - self.due;
        let period: u128 = self.period as u128;
        let skipped: u128 = behind / period;
        proof {
            assert(skipped * period <= behind) by (nonlinear_arith)
                requires
                    skipped == behind / period,
                    period > 0,
            ;
            assert((skipped + 1) * period == skipped * period + period) by (nonlinear_arith);
        }
        self.due = self.due + (skipped + 1) * period;
        true
    }

    /// A poll leaves the next firing after the time of the poll, at most one
    /// period after it, and on the grid.
    pub proof fn lemma_poll_advances(before: Timer, now: nat, after: Timer)
        requires
            before.period_view() > 0,
            before.is_due(now),
            Self::polled(before, now, after),
        ensures
            now < after.due_view() <= now + before.period_view(),
            (after.due_view() - before.due_view()) % (before.period_view() as int) == 0,
    {
        let p = before.period_view() as int;
        let behind = now - before.due_view();
        let q = behind / p;
        assert(q * p <= behind < q * p + p) by (nonlinear_arith)
            requires
                q == behind / p,
                p > 0,
                behind >= 0,
        ;
        assert((q + 1) * p == q * p + p) by (nonlinear_arith);
        assert(q >= 0) by (nonlinear_arith)
            requires
                q == behind / p,
                p > 0,
                behind >= 0,
        ;
        assert(((q + 1) * p) % p == 0) by (nonlinear_arith)
            requires
                p > 0,
        ;
    }

    /// A timer that has fired does not fire again before its next grid point,
    /// however often it is polled.
    pub proof fn lemma_fires_once(before: Timer, now: nat, after: Timer, later: nat)
        requires
            before.period_view() > 0,
            before.is_due(now),
            Self::polled(before, now, after),
            later < after.due_view(),
        ensures
            !after.is_due(later),
    {
    }
}

/// The agent's two timers. Neither looks at the other.
#[derive(Debug, Clone, Copy)]
pub struct Schedule {
    pub activity: Timer,
    pub health: Timer,
}

impl Schedule {
    /// The ticks that a poll at `now` yields.
    pub open spec fn due_ticks(&self, now: nat) -> Seq<Tick> {
        (if self.activity.is_due(now) {
            seq![Tick::Activity]
        } else {
            Seq::<Tick>::empty()
        }) + (if self.health.is_due(now) {
            seq![Tick::Health]
        } else {
            Seq::<Tick>::empty()
        })
    }

    /// Two timers with the given periods in seconds, both due at once.
    pub fn new(event_check_interval: u32, health_check_interval: u32) -> (schedule: Schedule)
        requires
            event_check_interval > 0,
            health_check_interval > 0,
        ensures
            schedule.activity.period_view() == event_check_interval * 1000,
            schedule.health.period_view() == health_check_interval * 1000,
            schedule.activity.due_view() == 0,
            schedule.health.due_view() == 0,
    {
        Schedule {
            activity: Timer::new(event_check_interval),
            health: Timer::new(health_check_interval),
        }
    }

    /// Polls both timers at time `now`: the ticks that are due, the activity
    /// tick first. Each timer is advanced as if it had been polled alone.
    pub fn poll(&mut self, now: u64) -> (ticks: Vec<Tick>)
        ensures
            ticks@ == old(self).due_ticks(now as nat),
            Timer::polled(old(self).activity, now as nat, final(self).activity),
            Timer::polled(old(self).health, now as nat, final(self).health),
    {
        let mut ticks: Vec<Tick> = Vec::new();
        if self.activity.poll(now) {
            ticks.push(Tick::Activity);
        }
        if self.health.poll(now) {
            ticks.push(Tick::Health);
        }
        assert(ticks@ =~= old(self).due_ticks(now as nat));
        ticks
    }
}

/// The steps of one tick, handed out one by one.
#[derive(Debug)]
pub struct Pass {
    steps: Vec<Step>,
    next: usize,
}

impl Pass {
    /// All the steps of the pass.
    pub closed spec fn steps_view(&self) -> Seq<Step> {
        self.steps@
    }

    /// How many steps have been handed out.
    pub closed spec fn handed_out(&self) -> nat {
        self.next as nat
    }

    #[verifier::type_invariant]
    spec fn wf(self) -> bool {
        self.next <= self.steps@.len()
    }

    /// The next step of the pass, or `None` when all have been handed out.
    /// `previous` says how the step before ended; a step that failed does not
    /// keep the others from running.
    pub fn advance(&mut self, previous: Option<Outcome>) -> (step: Option<Step>)
        ensures
            final(self).steps_view() == old(self).steps_view(),
            old(self).handed_out() < old(self).steps_view().len() ==> {
                &&& step == Some(old(self).steps_view()[old(self).handed_out() as int])
                &&& final(self).handed_out() == old(self).handed_out() + 1
            },
            old(self).handed_out() >= old(self).steps_view().len() ==> {
                &&& step is None
                &&& final(self).handed_out() == old(self).handed_out()
            },
    {
        if self.next < self.steps.len() {
            let step = self.steps[self.next];
            self.next = self.next + 1;
            Some(step)
        } else {
            None
        }
    }
}

/// The agent: its identity for this run, the modules that could be started,
/// and its timers. `M` is the event monitor and `S` the file scanner of the
/// host's platform.
pub struct Orchestrator<M, S> {
    pub device_id: String,
    pub monitor: Option<M>,
    pub scanner: Option<S>,
    pub filter: Option<DNSFilter>,
    pub schedule: Schedule,
}

/// The module, where it could be started.
pub open spec fn started<T>(made: Result<T, InitializationError>) -> Option<T> {
    match made {
        Ok(module) => Some(module),
        Err(_) => None,
    }
}

impl<M, S> Orchestrator<M, S> {
    /// The agent with the identity `device_id` and the modules that could be
    /// started. A module that could not be started is left out; the others
    /// run without it.
    pub fn assemble(
        device_id: String,
        monitor: Result<M, InitializationError>,
        scanner: Result<S, InitializationError>,
        filter: Result<DNSFilter, InitializationError>,
        schedule: Schedule,
    ) -> (agent: Self)
        ensures
            agent.device_id == device_id,
            agent.monitor == started(monitor),
            agent.scanner == started(scanner),
            agent.filter == started(filter),
            agent.schedule == schedule,
    {
        Orchestrator {
            device_id,
            monitor: monitor.ok(),
            scanner: scanner.ok(),
            filter: filter.ok(),
            schedule,
        }
    }

    /// The steps that `tick` sets in motion.
    pub open spec fn steps_for(&self, tick: Tick) -> Seq<Step> {
        plan(tick, self.monitor is Some, self.scanner is Some, self.filter is Some)
    }

    /// Begins the pass that answers `tick`.
    pub fn on_tick(&self, tick: Tick) -> (pass: Pass)
        ensures
            pass.steps_view() == self.steps_for(tick),
            pass.handed_out() == 0,
    {
        let mut steps: Vec<Step> = Vec::new();
        match tick {
            Tick::Health => {
                steps.push(Step::SendHealthCheck);
            },
            Tick::Activity => {
                if self.monitor.is_some() {
                    steps.push(Step::ProcessEvents);
                }
                if self.scanner.is_some() {
                    steps.push(Step::ScanFiles);
                }
                if self.filter.is_some() {
                    steps.push(Step::RefreshBlocklist);
                }
            },
        }
        assert(steps@ =~= self.steps_for(tick));
        Pass { steps, next: 0 }
    }
}

/// A health tick asks for exactly one health check, whichever modules run
/// and however the steps of any other tick ended.
pub proof fn lemma_health_tick_sends_one_check(monitor: bool, scanner: bool, filter: bool)
    ensures
        plan(Tick::Health, monitor, scanner, filter) == seq![Step::SendHealthCheck],
        !plan(Tick::Activity, monitor, scanner, filter).contains(Step::SendHealthCheck),
{
    let steps = plan(Tick::Activity, monitor, scanner, filter);
    if steps.contains(Step::SendHealthCheck) {
        let i = choose|i: int| 0 <= i < steps.len() && steps[i] == Step::SendHealthCheck;
        assert(steps[i] != Step::SendHealthCheck);
    }
}

} // verus!
