//! Points in wall-clock time and lengths of time, as plain values.

use vstd::prelude::*;

verus! {

/// A point in wall-clock time: `secs` whole seconds after the UNIX epoch (negative
/// before it) plus `nanos` nanoseconds, with `nanos` below one second.
#[derive(Debug, Clone, Copy, PartialEq, Eq, Structural, PartialOrd, Ord, Hash)]
pub struct Time {
    pub secs: i64,
    pub nanos: u32,
}

/// A length of time: `secs` seconds plus `nanos` nanoseconds, with `nanos` below
/// one second.
#[derive(Debug, Clone, Copy, PartialEq, Eq, Structural, PartialOrd, Ord, Hash)]
pub struct Duration {
    pub secs: u64,
    pub nanos: u32,
}

pub const NANOS_PER_SEC: u32 = 1_000_000_000;

impl Time {
    /// Whether `self` comes strictly before `other`.
    pub open spec fn spec_before(self, other: Time) -> bool {
        self.secs < other.secs || (self.secs == other.secs && self.nanos < other.nanos)
    }

    /// The whole seconds elapsed since the UNIX epoch, or zero for an instant
    /// before it.
    pub open spec fn spec_unix_second(self) -> u64 {
        if self.secs >= 0 {
            self.secs as u64
        } else {
            0
        }
    }

    pub fn new(secs: i64, nanos: u32) -> (t: Time)
        requires
            nanos < NANOS_PER_SEC,
        ensures
            t.secs == secs,
            t.nanos == nanos,
    {
        Time { secs, nanos }
    }

    #[verifier::when_used_as_spec(spec_before)]
    pub fn before(self, other: Time) -> (r: bool)
        ensures
            r == self.spec_before(other),
    {
        self.secs < other.secs || (self.secs == other.secs && self.nanos < other.nanos)
    }

    /// The whole-second bucket that this instant falls into.
    #[verifier::when_used_as_spec(spec_unix_second)]
    pub fn unix_second(self) -> (r: u64)
        ensures
            r == self.spec_unix_second(),
    {
        if self.secs >= 0 {
            self.secs as u64
        } else {
            0
        }
    }
}

impl Duration {
    pub open spec fn total_nanos(self) -> int {
        self.secs * 1_000_000_000 + self.nanos
    }

    pub fn new(secs: u64, nanos: u32) -> (d: Duration)
        requires
            nanos < NANOS_PER_SEC,
        ensures
            d.secs == secs,
            d.nanos == nanos,
    {
        Duration { secs, nanos }
    }

    pub fn from_millis(millis: u64) -> (d: Duration)
        ensures
            d.total_nanos() == millis * 1_000_000,
            d.nanos < NANOS_PER_SEC,
    {
        let secs = millis / 1000;
        let nanos = ((millis % 1000) as u32) * 1_000_000;
        assert(millis == secs * 1000 + millis % 1000);
        Duration { secs, nanos }
    }

    pub open spec fn spec_is_zero(self) -> bool {
        self.secs == 0 && self.nanos == 0
    }

    #[verifier::when_used_as_spec(spec_is_zero)]
    pub fn is_zero(self) -> (r: bool)
        ensures
            r == self.spec_is_zero(),
    {
        self.secs == 0 && self.nanos == 0
    }
}

} // verus!
