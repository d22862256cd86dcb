//! Wall-clock time of day and the latency between two readings.
use vstd::prelude::*;

verus! {

/// Time of day (UTC) with milliseconds.
#[derive(Debug, Clone)]
pub struct Clock {
    pub hours: u64,
    pub minutes: u64,
    pub seconds: u64,
    pub milliseconds: u32,
}

/// Milliseconds within the current minute that a clock reading stands for.
pub open spec fn clock_total(c: Clock) -> nat {
    (c.seconds * 1000 + c.milliseconds) as nat
}

/// A reading whose millisecond total fits in a `u64`.
pub open spec fn clock_in_range(c: Clock) -> bool {
    clock_total(c) <= u64::MAX
}

/// The time of day of a moment given as whole seconds since the UNIX epoch
/// and the milliseconds past that second.
pub open spec fn clock_at(since_epoch_secs: u64, subsec_millis: u32) -> Clock {
    Clock {
        hours: (since_epoch_secs / 3600) % 24,
        minutes: (since_epoch_secs / 60) % 60,
        seconds: since_epoch_secs % 60,
        milliseconds: subsec_millis,
    }
}

impl Clock {
    /// The time of day of a moment given as whole seconds since the UNIX
    /// epoch and the milliseconds past that second.
    pub fn current_time(since_epoch_secs: u64, subsec_millis: u32) -> (c: Self)
        ensures
            c == clock_at(since_epoch_secs, subsec_millis),
    {
        let milliseconds = subsec_millis;
        let seconds = since_epoch_secs;
        let hours = (seconds / 3600) % 24;
        let minutes = (seconds / 60) % 60;
        let seconds = seconds % 60;
        Clock { hours, minutes, seconds, milliseconds }
    }

    fn sec2mil(&self) -> (ms: u64)
        requires
            clock_in_range(*self),
        ensures
            ms == self.seconds * 1000,
    {
        self.seconds * 1000
    }

    fn total(&self) -> (ms: u64)
        requires
            clock_in_range(*self),
        ensures
            ms == clock_total(*self),
    {
        self.sec2mil() + self.milliseconds as u64
    }
}

/// Milliseconds from `clock1` to `clock2`, counted within the minute.
pub fn latency(clock1: &Clock, clock2: &Clock) -> (ms: u64)
    requires
        clock_in_range(*clock1),
        clock_in_range(*clock2),
        clock_total(*clock1) <= clock_total(*clock2),
    ensures
        ms == clock_total(*clock2) - clock_total(*clock1),
{
    let latency = clock2.total() - clock1.total();
    latency
}

} // verus!
