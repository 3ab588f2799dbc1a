//! Process and file events of the Endpoint Security framework, and the rule
//! that tells which of them are suspicious.

use crate::error::InitializationError;
use crate::reporter::{PostRequest, Reporter};
use crate::text::{chars_of, is_prefix, occurs_in, slice_has_prefix, slice_has_substring};
use vstd::prelude::*;

verus! {

/// One event that the framework delivered.
#[derive(Debug, Clone)]
pub struct ESFEvent {
    pub event_id: String,
    pub device_id: String,
    pub event_type: String,
    pub file_path: Option<String>,
    pub process_id: u32,
    pub process_name: String,
    pub action: String,
    pub timestamp: String,
    pub user: String,
}

/// The kind under which a suspicious event is reported.
pub open spec fn threat_kind() -> Seq<char> {
    "suspicious_process"@
}

/// The process name holds the name of a system process, in this spelling:
/// a user process that does so may be masquerading.
pub open spec fn masquerades(process_name: Seq<char>) -> bool {
    ||| occurs_in(process_name, "system"@)
    ||| occurs_in(process_name, "kernel"@)
    ||| occurs_in(process_name, "launchd"@)
}

/// The path begins with a location that malware likes to write to.
pub open spec fn in_watched_location(path: Seq<char>) -> bool {
    ||| is_prefix(path, "/tmp"@)
    ||| is_prefix(path, "/var/tmp"@)
    ||| is_prefix(path, "/usr/local/bin"@)
}

/// An event is suspicious where its process masquerades or its file, if it
/// names one, lies in a watched location.
pub open spec fn esf_suspicious(event: ESFEvent) -> bool {
    ||| masquerades(event.process_name@)
    ||| (event.file_path matches Some(path) && in_watched_location(path@))
}

/// The suspicious ones among `events`, in their order.
pub open spec fn alarms(events: Seq<ESFEvent>) -> Seq<ESFEvent> {
    events.filter(|event: ESFEvent| esf_suspicious(event))
}

/// The monitor of Endpoint Security events. Once stopped it stays stopped.
pub struct ESFMonitor {
    device_id: String,
    enabled: bool,
}

impl ESFMonitor {
    pub closed spec fn device_view(&self) -> Seq<char> {
        self.device_id@
    }

    pub closed spec fn enabled(&self) -> bool {
        self.enabled
    }

    /// A running monitor for the device `device_id`.
    pub fn new(device_id: &str) -> (made: Result<Self, InitializationError>)
        ensures
            made matches Ok(monitor) && monitor.device_view() == device_id@ && monitor.enabled(),
    {
        Ok(ESFMonitor { device_id: String::from_str(device_id), enabled: true })
    }

    pub fn device_id(&self) -> (id: &str)
        ensures
            id@ == self.device_view(),
    {
        self.device_id.as_str()
    }

    pub fn is_enabled(&self) -> (on: bool)
        ensures
            on == self.enabled(),
    {
        self.enabled
    }

    /// Whether `event` is suspicious.
    pub fn is_suspicious(&self, event: &ESFEvent) -> (alarm: bool)
        ensures
            alarm == esf_suspicious(*event),
    {
        let name = chars_of(event.process_name.as_str());
        if slice_has_substring(name.as_slice(), "system") || slice_has_substring(
            name.as_slice(),
            "kernel",
        ) || slice_has_substring(name.as_slice(), "launchd") {
            return true;
        }
        match &event.file_path {
            Some(path) => {
                let path = chars_of(path.as_str());
                slice_has_prefix(path.as_slice(), "/tmp") || slice_has_prefix(
                    path.as_slice(),
                    "/var/tmp",
                ) || slice_has_prefix(path.as_slice(), "/usr/local/bin")
            },
            None => false,
        }
    }

    /// What a poll yields: all that the framework has buffered while the
    /// monitor runs, nothing once it is stopped.
    pub fn collect_events(&self, buffered: Vec<ESFEvent>) -> (events: Vec<ESFEvent>)
        ensures
            self.enabled() ==> events == buffered,
            !self.enabled() ==> events@.len() == 0,
    {
        if self.enabled {
            buffered
        } else {
            Vec::new()
        }
    }

    /// One pass over the buffered events: for each suspicious event, in order,
    /// one report to the backend, and none for any other. A stopped monitor
    /// reports nothing.
    pub fn process_events(&self, reporter: &Reporter, buffered: Vec<ESFEvent>) -> (requests: Vec<
        PostRequest,
    >)
        ensures
            !self.enabled() ==> requests@.len() == 0,
            self.enabled() ==> requests@.len() == alarms(buffered@).len(),
            self.enabled() ==> forall|k: int|
                0 <= k < requests@.len() ==> reporter.posts_threat(
                    &#[trigger] requests@[k],
                    alarms(buffered@)[k].device_id@,
                    alarms(buffered@)[k].process_name@,
                    threat_kind(),
                ),
    {
        let ghost all = buffered@;
        let events = self.collect_events(buffered);
        let mut requests: Vec<PostRequest> = Vec::new();
        if !self.enabled {
            return requests;
        }
        let mut i: usize = 0;
        proof {
            reveal(Seq::filter);
            assert(all.take(0) =~= Seq::<ESFEvent>::empty());
        }
        while i < events.len()
            invariant
                i <= events.len(),
                events@ == all,
                requests@.len() == alarms(all.take(i as int)).len(),
                forall|k: int|
                    0 <= k < requests@.len() ==> reporter.posts_threat(
                        &#[trigger] requests@[k],
                        alarms(all.take(i as int))[k].device_id@,
                        alarms(all.take(i as int))[k].process_name@,
                        threat_kind(),
                    ),
            decreases events.len() - i,
        {
            let event = &events[i];
            proof {
                reveal(Seq::filter);
                assert(all.take(i + 1).drop_last() =~= all.take(i as int));
                assert(all.take(i + 1).last() == all[i as int]);
            }
            if self.is_suspicious(event) {
                let request = reporter.report_threat(
                    event.device_id.as_str(),
                    event.process_name.as_str(),
                    "suspicious_process",
                );
                requests.push(request);
            }
            i += 1;
        }
        assert(all.take(i as int) =~= all);
        requests
    }

    /// Stops the monitor. Stopping a stopped monitor changes nothing.
    pub fn stop(&mut self)
        ensures
            !final(self).enabled(),
            final(self).device_view() == old(self).device_view(),
    {
        self.enabled = false;
    }
}

} // verus!
