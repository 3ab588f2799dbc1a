//! Process events of Event Tracing for Windows, and the rule that tells which
//! of them are suspicious.

use crate::error::InitializationError;
use crate::reporter::{PostRequest, Reporter};
use crate::text::{chars_of, lowercase_of, occurs_in, slice_has_substring, to_lowercase};
use vstd::prelude::*;

verus! {

/// One process event that a trace delivered.
#[derive(Debug, Clone)]
pub struct ETWEvent {
    pub event_id: String,
    pub device_id: String,
    pub event_type: String,
    pub process_id: u32,
    pub process_name: String,
    pub command_line: Option<String>,
    pub parent_process_id: u32,
    pub user: String,
    pub action: String,
    pub timestamp: String,
}

/// The kind under which a suspicious event is reported.
pub open spec fn threat_kind() -> Seq<char> {
    "suspicious_process"@
}

/// The lowercased process name holds the name of a system binary that
/// attackers use in place of tools of their own.
pub open spec fn names_system_binary(name_lower: Seq<char>) -> bool {
    ||| occurs_in(name_lower, "cmd.exe"@)
    ||| occurs_in(name_lower, "powershell.exe"@)
    ||| occurs_in(name_lower, "rundll32.exe"@)
    ||| occurs_in(name_lower, "mshta.exe"@)
    ||| occurs_in(name_lower, "wmic.exe"@)
    ||| occurs_in(name_lower, "cscript.exe"@)
    ||| occurs_in(name_lower, "wscript.exe"@)
}

/// The lowercased command line climbs out of a directory while naming the
/// system directory, or says that what it runs is obfuscated or encoded.
pub open spec fn command_line_alarms(line_lower: Seq<char>) -> bool {
    ||| (occurs_in(line_lower, "system32"@) && occurs_in(line_lower, "..\\"@))
    ||| occurs_in(line_lower, "obfuscation"@)
    ||| occurs_in(line_lower, "encoded"@)
}

/// The rule on an event whose texts are already in lowercase: suspicious by
/// its process name, by its command line if it has one, or because it has no
/// parent.
pub open spec fn lowered_suspicious(
    name_lower: Seq<char>,
    line_lower: Option<Seq<char>>,
    parent_process_id: u32,
) -> bool {
    ||| names_system_binary(name_lower)
    ||| (line_lower matches Some(line) && command_line_alarms(line))
    ||| parent_process_id == 0
}

/// An event is suspicious where the rule holds of its process name and command
/// line in lowercase: the rule does not tell upper from lower case.
pub open spec fn etw_suspicious(event: ETWEvent) -> bool {
    lowered_suspicious(
        lowercase_of(event.process_name@),
        match event.command_line {
            Some(line) => Some(lowercase_of(line@)),
            None => None,
        },
        event.parent_process_id,
    )
}

/// The suspicious ones among `events`, in their order.
pub open spec fn alarms(events: Seq<ETWEvent>) -> Seq<ETWEvent> {
    events.filter(|event: ETWEvent| etw_suspicious(event))
}

/// The view of an optional text.
pub open spec fn view_of(text: Option<&str>) -> Option<Seq<char>> {
    match text {
        Some(text) => Some(text@),
        None => None,
    }
}

/// The tracer of Windows process events. Once stopped it stays stopped.
pub struct ETWTracer {
    device_id: String,
    enabled: bool,
}

impl ETWTracer {
    pub closed spec fn device_view(&self) -> Seq<char> {
        self.device_id@
    }

    pub closed spec fn enabled(&self) -> bool {
        self.enabled
    }

    /// A running tracer for the device `device_id`.
    pub fn new(device_id: &str) -> (made: Result<Self, InitializationError>)
        ensures
            made matches Ok(tracer) && tracer.device_view() == device_id@ && tracer.enabled(),
    {
        Ok(ETWTracer { device_id: String::from_str(device_id), enabled: true })
    }

    pub fn device_id(&self) -> (id: &str)
        ensures
            id@ == self.device_view(),
    {
        self.device_id.as_str()
    }

    pub fn is_enabled(&self) -> (on: bool)
        ensures
            on == self.enabled(),
    {
        self.enabled
    }

    /// The rule on texts that are already in lowercase.
    pub fn judge_lowered(name_lower: &str, line_lower: Option<&str>, parent_process_id: u32) -> (alarm:
        bool)
        ensures
            alarm == lowered_suspicious(name_lower@, view_of(line_lower), parent_process_id),
    {
        let name = chars_of(name_lower);
        let name = name.as_slice();
        if slice_has_substring(name, "cmd.exe") || slice_has_substring(name, "powershell.exe")
            || slice_has_substring(name, "rundll32.exe") || slice_has_substring(name, "mshta.exe")
            || slice_has_substring(name, "wmic.exe") || slice_has_substring(name, "cscript.exe")
            || slice_has_substring(name, "wscript.exe") {
            return true;
        }
        if let Some(line) = line_lower {
            let line = chars_of(line);
            let line = line.as_slice();
            if slice_has_substring(line, "system32") && slice_has_substring(line, "..\\") {
                return true;
            }
            if slice_has_substring(line, "obfuscation") || slice_has_substring(line, "encoded") {
                return true;
            }
        }
        parent_process_id == 0
    }

    /// Whether `event` is suspicious.
    pub fn is_suspicious(&self, event: &ETWEvent) -> (alarm: bool)
        ensures
            alarm == etw_suspicious(*event),
    {
        let name_lower = to_lowercase(event.process_name.as_str());
        match &event.command_line {
            Some(line) => {
                let line_lower = to_lowercase(line.as_str());
                Self::judge_lowered(
                    name_lower.as_str(),
                    Some(line_lower.as_str()),
                    event.parent_process_id,
                )
            },
            None => Self::judge_lowered(name_lower.as_str(), None, event.parent_process_id),
        }
    }

    /// What a poll yields: all that the trace has buffered while the tracer
    /// runs, nothing once it is stopped.
    pub fn collect_events(&self, buffered: Vec<ETWEvent>) -> (events: Vec<ETWEvent>)
        ensures
            self.enabled() ==> events == buffered,
            !self.enabled() ==> events@.len() == 0,
    {
        if self.enabled {
            buffered
        } else {
            Vec::new()
        }
    }

    /// One pass over the buffered events: for each suspicious event, in order,
    /// one report to the backend, and none for any other. A stopped tracer
    /// reports nothing.
    pub fn process_events(&self, reporter: &Reporter, buffered: Vec<ETWEvent>) -> (requests: Vec<
        PostRequest,
    >)
        ensures
            !self.enabled() ==> requests@.len() == 0,
            self.enabled() ==> requests@.len() == alarms(buffered@).len(),
            self.enabled() ==> forall|k: int|
                0 <= k < requests@.len() ==> reporter.posts_threat(
                    &#[trigger] requests@[k],
                    alarms(buffered@)[k].device_id@,
                    alarms(buffered@)[k].process_name@,
                    threat_kind(),
                ),
    {
        let ghost all = buffered@;
        let events = self.collect_events(buffered);
        let mut requests: Vec<PostRequest> = Vec::new();
        if !self.enabled {
            return requests;
        }
        let mut i: usize = 0;
        proof {
            reveal(Seq::filter);
            assert(all.take(0) =~= Seq::<ETWEvent>::empty());
        }
        while i < events.len()
            invariant
                i <= events.len(),
                events@ == all,
                requests@.len() == alarms(all.take(i as int)).len(),
                forall|k: int|
                    0 <= k < requests@.len() ==> reporter.posts_threat(
                        &#[trigger] requests@[k],
                        alarms(all.take(i as int))[k].device_id@,
                        alarms(all.take(i as int))[k].process_name@,
                        threat_kind(),
                    ),
            decreases events.len() - i,
        {
            let event = &events[i];
            proof {
                reveal(Seq::filter);
                assert(all.take(i + 1).drop_last() =~= all.take(i as int));
                assert(all.take(i + 1).last() == all[i as int]);
            }
            if self.is_suspicious(event) {
                let request = reporter.report_threat(
                    event.device_id.as_str(),
                    event.process_name.as_str(),
                    "suspicious_process",
                );
                requests.push(request);
            }
            i += 1;
        }
        assert(all.take(i as int) =~= all);
        requests
    }

    /// Stops the tracer. Stopping a stopped tracer changes nothing.
    pub fn stop(&mut self)
        ensures
            !final(self).enabled(),
            final(self).device_view() == old(self).device_view(),
    {
        self.enabled = false;
    }
}

} // verus!
