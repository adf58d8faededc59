//! Points in time and lengths of time, as plain integers.

use vstd::prelude::*;

verus! {

/// A point in time: whole seconds since the start of 1970 in UTC, and the
/// nanoseconds past that second. Points in time are ordered by the seconds
/// first and the nanoseconds second.
#[derive(Debug, Clone, Copy, PartialEq, Eq, Structural)]
pub struct Timestamp {
    pub secs: i64,
    pub nanos: u32,
}

impl Timestamp {
    /// `self` lies strictly before `other`.
    pub open spec fn before(self, other: Timestamp) -> bool {
        self.secs < other.secs || (self.secs == other.secs && self.nanos < other.nanos)
    }

    /// Whether `self` lies strictly before `other`.
    pub fn is_before(&self, other: &Timestamp) -> (r: bool)
        ensures
            r == self.before(*other),
    {
        self.secs < other.secs || (self.secs == other.secs && self.nanos < other.nanos)
    }
}

/// `a` lies strictly before `b`, no time at all lying before every point in
/// time.
pub open spec fn earlier(a: Option<Timestamp>, b: Option<Timestamp>) -> bool {
    match (a, b) {
        (None, Some(_)) => true,
        (Some(x), Some(y)) => x.before(y),
        _ => false,
    }
}

/// Whether `a` lies strictly before `b`.
pub fn is_earlier(a: &Option<Timestamp>, b: &Option<Timestamp>) -> (r: bool)
    ensures
        r == earlier(*a, *b),
{
    match (a, b) {
        (None, Some(_)) => true,
        (Some(x), Some(y)) => x.is_before(y),
        _ => false,
    }
}

/// A length of time, in nanoseconds.
#[derive(Debug, Clone, Copy, PartialEq, Eq, Structural)]
pub struct TimeSpan {
    pub nanos: u128,
}

/// The nanoseconds in a second.
pub const NANOS_PER_SECOND: u128 = 1_000_000_000;

impl TimeSpan {
    /// The length of `secs` seconds.
    pub fn from_secs(secs: u64) -> (span: TimeSpan)
        ensures
            span.nanos == secs * NANOS_PER_SECOND,
    {
        TimeSpan { nanos: (secs as u128) * NANOS_PER_SECOND }
    }

    /// The whole seconds in the length.
    pub fn as_secs(&self) -> (secs: u128)
        ensures
            secs == self.nanos / NANOS_PER_SECOND,
    {
        self.nanos / NANOS_PER_SECOND
    }

    /// The nanoseconds past the last whole second.
    pub fn subsec_nanos(&self) -> (nanos: u32)
        ensures
            nanos == self.nanos % NANOS_PER_SECOND,
    {
        (self.nanos % NANOS_PER_SECOND) as u32
    }

    /// The length halfway between two lengths, rounded down to the
    /// nanosecond.
    pub open spec fn midpoint(self, other: TimeSpan) -> TimeSpan {
        TimeSpan { nanos: ((self.nanos + other.nanos) / 2) as u128 }
    }

    /// The length halfway between two lengths, rounded down to the
    /// nanosecond.
    pub fn halfway(&self, other: &TimeSpan) -> (mid: TimeSpan)
        ensures
            mid == self.midpoint(*other),
            mid.nanos == (self.nanos + other.nanos) / 2,
    {
        let a = self.nanos;
        let b = other.nanos;
        let mid: u128 = a / 2 + b / 2 + (a % 2 + b % 2) / 2;
        TimeSpan { nanos: mid }
    }
}

} // verus!
