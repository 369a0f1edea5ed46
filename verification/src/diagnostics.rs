//! Process-wide state that the health surface reads.

use vstd::prelude::*;

verus! {

/// A point in time: seconds and nanoseconds since the Unix epoch, UTC.
#[derive(Debug, Clone, Copy, PartialEq, Eq, Structural)]
pub struct Timestamp {
    /// Whole seconds since the epoch.
    pub seconds: i64,
    /// Nanoseconds within the second.
    pub nanos: u32,
}

/// The identity under which the engine reports notifications.
pub open spec fn reporter_name() -> Seq<char> {
    "strickerbomb"@
}

/// When the last pass succeeded, and who reports notifications.
#[derive(Debug)]
pub struct Diagnostics {
    /// Time of the last successful pass; the start of the process before
    /// the first one.
    pub last_event: Timestamp,
    /// Identity to which notifications are attributed.
    pub reporter: String,
}

impl Diagnostics {
    /// The diagnostics of a process that starts at `now`.
    pub fn new(now: Timestamp) -> (diagnostics: Self)
        ensures
            diagnostics.last_event == now,
            diagnostics.reporter@ == reporter_name(),
    {
        Diagnostics { last_event: now, reporter: String::from_str("strickerbomb") }
    }

    /// Records that a pass succeeded at `now`.
    pub fn record_success(&mut self, now: Timestamp)
        ensures
            final(self).last_event == now,
            final(self).reporter == old(self).reporter,
    {
        self.last_event = now;
    }
}

impl Clone for Diagnostics {
    fn clone(&self) -> (copy: Self)
        ensures
            copy == *self,
    {
        Diagnostics { last_event: self.last_event, reporter: self.reporter.clone() }
    }
}

} // verus!
