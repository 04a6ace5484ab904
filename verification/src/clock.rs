//! Wall-clock time as plain numbers.

use vstd::prelude::*;

verus! {

/// A moment in UTC: whole seconds since the Unix epoch and the nanoseconds
/// into that second.
#[derive(Debug, Clone, Copy, PartialEq, Eq, Structural)]
pub struct Timestamp {
    pub secs: i64,
    pub nanos: u32,
}

impl Timestamp {
    /// A reading that a running clock can give: not before the epoch, and
    /// less than a second into its second.
    pub open spec fn is_clock_reading(self) -> bool {
        self.secs >= 0 && self.nanos < 1_000_000_000
    }

    /// The epoch itself.
    pub fn epoch() -> (t: Timestamp)
        ensures
            t == (Timestamp { secs: 0, nanos: 0 }),
    {
        Timestamp { secs: 0, nanos: 0 }
    }

    /// Whether `self` lies strictly before `other`.
    pub open spec fn precedes(self, other: Timestamp) -> bool {
        self.secs < other.secs || (self.secs == other.secs && self.nanos < other.nanos)
    }

    /// Whether `self` lies strictly before `other`.
    pub fn is_before(&self, other: &Timestamp) -> (earlier: bool)
        ensures
            earlier == self.precedes(*other),
    {
        self.secs < other.secs || (self.secs == other.secs && self.nanos < other.nanos)
    }
}

/// The microseconds from `start` to `end`: none if `end` is not later, and the
/// largest number if there are too many.
pub open spec fn micros_between(start: Timestamp, end: Timestamp) -> u64 {
    let span = (end.secs - start.secs) * 1_000_000 + (end.nanos as int / 1000) - (start.nanos as int
        / 1000);
    if span <= 0 {
        0
    } else if span >= u64::MAX {
        u64::MAX
    } else {
        span as u64
    }
}

/// The microseconds from `start` to `end`.
pub fn elapsed_micros(start: Timestamp, end: Timestamp) -> (micros: u64)
    ensures
        micros == micros_between(start, end),
{
    let seconds: i128 = end.secs as i128 - start.secs as i128;
    let span: i128 = seconds * 1_000_000 + (end.nanos / 1000) as i128 - (start.nanos / 1000) as i128;
    if span <= 0 {
        0
    } else if span >= u64::MAX as i128 {
        u64::MAX
    } else {
        span as u64
    }
}

/// Reads the system clock through `chrono::Utc::now`.
///
/// Trusted: chrono builds the value from the time elapsed since the epoch, so
/// the seconds are not negative and the nanoseconds stay below one second.
/// Which moment comes back is not stated. chrono panics if the system clock
/// is set before 1970.
#[verifier::external_body]
pub(crate) fn now() -> (t: Timestamp)
    ensures
        t.is_clock_reading(),
{
    let moment = chrono::Utc::now();
    Timestamp { secs: moment.timestamp(), nanos: moment.timestamp_subsec_nanos() }
}

/// The current time.
pub fn current_time() -> (t: Timestamp)
    ensures
        t.is_clock_reading(),
{
    now()
}

} // verus!
