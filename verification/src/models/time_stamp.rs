use std::cmp::Ordering;
use vstd::prelude::*;

verus! {

/// A point in time: seconds since 1970-01-01T00:00:00 UTC, negative before.
#[derive(Clone, Copy, Debug, PartialEq, Eq, Structural, Hash)]
pub struct TimeStamp {
    pub time: i64,
}

impl TimeStamp {
    pub fn new(time: i64) -> (ts: TimeStamp)
        ensures
            ts.time == time,
    {
        TimeStamp { time }
    }

    /// Seconds from `earlier` to this time, negative where this time is the
    /// earlier one. The difference of two times may not fit in 64 bits, so it
    /// is given in 128.
    pub fn seconds_since(self, earlier: TimeStamp) -> (elapsed: i128)
        ensures
            elapsed == self.time - earlier.time,
    {
        self.time as i128 - earlier.time as i128
    }
}

impl PartialOrd for TimeStamp {
    fn partial_cmp(&self, other: &Self) -> (order: Option<Ordering>) {
        if self.time < other.time {
            Some(Ordering::Less)
        } else if self.time == other.time {
            Some(Ordering::Equal)
        } else {
            Some(Ordering::Greater)
        }
    }
}

impl vstd::std_specs::cmp::PartialOrdSpecImpl for TimeStamp {
    open spec fn obeys_partial_cmp_spec() -> bool {
        true
    }

    /// Earlier is less.
    open spec fn partial_cmp_spec(&self, other: &Self) -> Option<Ordering> {
        if self.time < other.time {
            Some(Ordering::Less)
        } else if self.time == other.time {
            Some(Ordering::Equal)
        } else {
            Some(Ordering::Greater)
        }
    }
}

} // verus!
