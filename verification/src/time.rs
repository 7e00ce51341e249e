//! Instants on the service's clock.

use vstd::prelude::*;

verus! {

/// Nanoseconds in one second.
pub const NANOS_PER_SEC: u32 = 1_000_000_000;

/// An instant, counted from the Unix epoch.
#[derive(Clone, Copy, Debug, PartialEq, Eq, Structural)]
pub struct Timestamp {
    pub secs: u64,
    pub nanos: u32,
}

impl Timestamp {
    /// The instant as a number of nanoseconds since the epoch.
    pub open spec fn as_nanos(self) -> int {
        self.secs as int * 1_000_000_000 + self.nanos as int
    }

    /// A well-formed instant keeps its sub-second part below one second.
    pub open spec fn wf(self) -> bool {
        self.nanos < NANOS_PER_SEC
    }

    /// `self` is not later than `other`.
    pub open spec fn spec_le(self, other: Timestamp) -> bool {
        self.secs < other.secs || (self.secs == other.secs && self.nanos <= other.nanos)
    }

    /// `self` is strictly later than `other`.
    pub open spec fn spec_gt(self, other: Timestamp) -> bool {
        !self.spec_le(other)
    }

    pub fn new(secs: u64, nanos: u32) -> (t: Timestamp)
        ensures
            t.secs == secs,
            t.nanos == nanos,
    {
        Timestamp { secs, nanos }
    }

    /// Whether `self` is at or before `other`.
    pub fn le(&self, other: &Timestamp) -> (b: bool)
        ensures
            b == self.spec_le(*other),
    {
        self.secs < other.secs || (self.secs == other.secs && self.nanos <= other.nanos)
    }

    /// Whether `self` is strictly after `other`.
    pub fn gt(&self, other: &Timestamp) -> (b: bool)
        ensures
            b == self.spec_gt(*other),
    {
        !self.le(other)
    }

    /// The instant `secs` whole seconds after `self`, unless that leaves the clock's range.
    pub fn checked_add_secs(&self, secs: u64) -> (r: Option<Timestamp>)
        ensures
            self.secs + secs <= u64::MAX ==> r == Some(
                Timestamp { secs: (self.secs + secs) as u64, nanos: self.nanos },
            ),
            self.secs + secs > u64::MAX ==> r.is_none(),
    {
        match self.secs.checked_add(secs) {
            Some(total) => Some(Timestamp { secs: total, nanos: self.nanos }),
            None => None,
        }
    }
}

/// For well-formed instants the field-wise order is the order of elapsed nanoseconds.
pub proof fn lemma_le_is_nanos_order(a: Timestamp, b: Timestamp)
    requires
        a.wf(),
        b.wf(),
    ensures
        a.spec_le(b) <==> a.as_nanos() <= b.as_nanos(),
{
}

} // verus!
