use vstd::prelude::*;

verus! {

pub const NANOS_PER_SECOND: u64 = 1_000_000_000;

pub const SECONDS_PER_DAY: u64 = 86_400;

pub const NANOS_PER_DAY: u64 = 86_400_000_000_000;

/// `a + b`, clamped to what a `u64` can hold.
pub open spec fn saturating_add(a: int, b: int) -> int {
    if a + b > u64::MAX {
        u64::MAX as int
    } else {
        a + b
    }
}

/// `a - b`, clamped at zero.
pub open spec fn saturating_sub(a: int, b: int) -> int {
    if a >= b {
        a - b
    } else {
        0
    }
}

/// A point in time, in nanoseconds since the epoch. `u64::MAX` stands for
/// "never".
#[derive(Clone, Copy, Debug, PartialEq, Eq, Structural)]
pub struct Timestamp {
    pub nanos: u64,
}

/// Whole seconds of a timestamp, rounded down.
pub open spec fn seconds_of(t: Timestamp) -> int {
    t.nanos as int / NANOS_PER_SECOND as int
}

/// `t` moved forward by `days` days, saturating at the largest timestamp.
pub open spec fn plus_days_of(t: Timestamp, days: int) -> Timestamp {
    Timestamp { nanos: saturating_add(t.nanos as int, days * NANOS_PER_DAY) as u64 }
}

impl Timestamp {
    pub fn from_nanos(nanos: u64) -> (t: Timestamp)
        ensures
            t.nanos == nanos,
    {
        Timestamp { nanos }
    }

    /// Saturates at the largest timestamp.
    pub fn from_seconds(seconds: u64) -> (t: Timestamp)
        ensures
            t.nanos == saturating_add(0, seconds * NANOS_PER_SECOND),
    {
        match seconds.checked_mul(NANOS_PER_SECOND) {
            Some(nanos) => Timestamp { nanos },
            None => Timestamp { nanos: u64::MAX },
        }
    }

    pub fn nanos(&self) -> (n: u64)
        ensures
            n == self.nanos,
    {
        self.nanos
    }

    pub fn seconds(&self) -> (s: u64)
        ensures
            s == seconds_of(*self),
    {
        self.nanos / NANOS_PER_SECOND
    }

    /// Saturates at the largest timestamp.
    pub fn plus_days(&self, days: u64) -> (t: Timestamp)
        ensures
            t == plus_days_of(*self, days as int),
    {
        let nanos = match days.checked_mul(NANOS_PER_DAY) {
            Some(delta) => self.nanos.saturating_add(delta),
            None => u64::MAX,
        };
        Timestamp { nanos }
    }

    /// Saturates at the epoch.
    pub fn minus_seconds(&self, seconds: u64) -> (t: Timestamp)
        ensures
            t.nanos == saturating_sub(self.nanos as int, seconds * NANOS_PER_SECOND),
    {
        let nanos = match seconds.checked_mul(NANOS_PER_SECOND) {
            Some(delta) => self.nanos.saturating_sub(delta),
            None => 0,
        };
        Timestamp { nanos }
    }
}

} // verus!
