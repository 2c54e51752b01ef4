//! Instants and signed spans of time, measured in nanoseconds.
use vstd::prelude::*;

verus! {

/// Nanoseconds in one second.
pub const NANOS_PER_SEC: i128 = 1_000_000_000;

/// Nanoseconds in one millisecond.
pub const NANOS_PER_MILLI: i128 = 1_000_000;

/// A wall-clock instant: whole seconds since the Unix epoch and the
/// nanoseconds past that second (which may reach past one second during a
/// leap second).
#[derive(Clone, Copy, Debug, PartialEq, Eq, Structural)]
pub struct Timestamp {
    pub secs: i64,
    pub nanos: u32,
}

impl View for Timestamp {
    /// The instant as nanoseconds since the Unix epoch.
    type V = int;

    open spec fn view(&self) -> int {
        self.secs as int * 1_000_000_000 + self.nanos as int
    }
}

/// A signed span of time in nanoseconds.
#[derive(Clone, Copy, Debug, PartialEq, Eq, Structural)]
pub struct TimeDelta {
    pub nanos: i128,
}

impl View for TimeDelta {
    type V = int;

    open spec fn view(&self) -> int {
        self.nanos as int
    }
}

/// Relies on chrono::Utc::now: it reads the system clock, which stands at or
/// after the Unix epoch (before it, chrono panics), and the nanoseconds it
/// reports stay below one second.
#[verifier::external_body]
fn utc_now() -> (r: (i64, u32))
    ensures
        r.0 >= 0,
        r.1 < 1_000_000_000,
{
    let t = chrono::Utc::now();
    (t.timestamp(), t.timestamp_subsec_nanos())
}

impl Timestamp {
    /// The instant `secs` seconds and `nanos` nanoseconds after the Unix epoch.
    pub fn new(secs: i64, nanos: u32) -> (r: Timestamp)
        ensures
            r.secs == secs,
            r.nanos == nanos,
    {
        Timestamp { secs, nanos }
    }

    /// The current wall-clock time.
    pub fn now() -> (r: Timestamp)
        ensures
            r@ >= 0,
    {
        let (secs, nanos) = utc_now();
        Timestamp { secs, nanos }
    }

    /// The instant as nanoseconds since the Unix epoch.
    pub fn as_nanos(&self) -> (r: i128)
        ensures
            r == self@,
    {
        self.secs as i128 * NANOS_PER_SEC + self.nanos as i128
    }

    /// The signed span from `earlier` to `self`.
    pub fn signed_duration_since(&self, earlier: &Timestamp) -> (r: TimeDelta)
        ensures
            r@ == self@ - earlier@,
    {
        TimeDelta { nanos: self.as_nanos() - earlier.as_nanos() }
    }
}

impl TimeDelta {
    /// A span of `nanos` nanoseconds.
    pub fn nanoseconds(nanos: i128) -> (r: TimeDelta)
        ensures
            r@ == nanos,
    {
        TimeDelta { nanos }
    }

    /// A span of `secs` seconds plus `nanos` nanoseconds (either may be negative).
    pub fn from_parts(secs: i64, nanos: i32) -> (r: TimeDelta)
        ensures
            r@ == secs * 1_000_000_000 + nanos,
    {
        TimeDelta { nanos: secs as i128 * NANOS_PER_SEC + nanos as i128 }
    }

    /// A span of `ms` milliseconds.
    pub fn milliseconds(ms: i64) -> (r: TimeDelta)
        ensures
            r@ == ms * 1_000_000,
    {
        TimeDelta { nanos: ms as i128 * NANOS_PER_MILLI }
    }

    /// A span of `secs` seconds.
    pub fn seconds(secs: i64) -> (r: TimeDelta)
        ensures
            r@ == secs * 1_000_000_000,
    {
        TimeDelta { nanos: secs as i128 * NANOS_PER_SEC }
    }

    /// The empty span.
    pub fn zero() -> (r: TimeDelta)
        ensures
            r@ == 0,
    {
        TimeDelta { nanos: 0 }
    }

    /// The span in nanoseconds.
    pub fn num_nanoseconds(&self) -> (r: i128)
        ensures
            r == self@,
    {
        self.nanos
    }
}

} // verus!
