//! The wall-clock value type, anchored to the epoch.

use core::cmp::Ordering;

use vstd::prelude::*;

use crate::duration::Duration;
use crate::timespec::{ts_max_nanos, ts_min_nanos, Timespec, MICROS_PER_SEC, NANOS_PER_SEC};

verus! {

/// A reading of the wall clock, measured from the epoch.  Values before the
/// epoch carry a negative seconds field.  Unlike the monotonic clock, wall
/// readings may move backward between queries, so the directional difference
/// [`SystemTime::sub_time`] forces callers to handle the backward case.
#[derive(Clone, Copy, Debug, Hash)]
pub struct SystemTime {
    /// The wrapped normalized timestamp.
    pub t: Timespec,
}

impl View for SystemTime {
    type V = int;

    /// A wall-clock value denotes the value of its timestamp.
    open spec fn view(&self) -> int {
        self.t@
    }
}

/// The reference instant all wall-clock values are measured from: the zero
/// timestamp.
pub fn unix_epoch() -> (r: SystemTime)
    ensures
        r.wf(),
        r@ == 0,
{
    SystemTime { t: Timespec::zero() }
}

impl SystemTime {
    /// Normalization invariant, inherited from the timestamp.
    pub open spec fn wf(self) -> bool {
        self.t.wf()
    }

    /// The directional difference from `other` to `self`: `Ok` with the
    /// magnitude when `self` is at or after `other`, `Err` with the same
    /// magnitude when `other` is the later value.
    pub fn sub_time(&self, other: &SystemTime) -> (r: Result<Duration, Duration>)
        requires
            self.wf(),
            other.wf(),
        ensures
            (r is Ok) == (self@ >= other@),
            r matches Ok(d) ==> d.wf() && d@ == self@ - other@,
            r matches Err(d) ==> d.wf() && d@ == other@ - self@,
    {
        self.t.sub_timespec(&other.t)
    }

    /// This value moved forward by a duration; absent on overflow of the
    /// seconds field, never a wrapped value.
    pub fn checked_add_duration(&self, other: &Duration) -> (r: Option<SystemTime>)
        requires
            self.wf(),
            other.wf(),
        ensures
            (r is Some) == (self@ + other@ <= ts_max_nanos()),
            r matches Some(s) ==> s.wf() && s@ == self@ + other@,
    {
        match self.t.checked_add_duration(other) {
            Some(t) => Some(SystemTime { t }),
            None => None,
        }
    }

    /// This value moved backward by a duration; absent on underflow of the
    /// seconds field, never a wrapped value.
    pub fn checked_sub_duration(&self, other: &Duration) -> (r: Option<SystemTime>)
        requires
            self.wf(),
            other.wf(),
        ensures
            (r is Some) == (self@ - other@ >= ts_min_nanos()),
            r matches Some(s) ==> s.wf() && s@ == self@ - other@,
    {
        match self.t.checked_sub_duration(other) {
            Some(t) => Some(SystemTime { t }),
            None => None,
        }
    }

    /// Wraps a raw clock reading given as seconds plus a microsecond
    /// fraction, scaling the fraction to nanoseconds.
    pub fn from_secs_micros(seconds: i64, microseconds: u32) -> (r: SystemTime)
        requires
            microseconds < MICROS_PER_SEC,
        ensures
            r.wf(),
            r@ == seconds * (NANOS_PER_SEC as int) + microseconds * 1000,
            r.t.seconds == seconds,
            r.t.nanoseconds == microseconds * 1000,
    {
        SystemTime { t: Timespec { seconds, nanoseconds: microseconds * 1000 } }
    }

    /// Wraps a raw clock reading given as seconds plus a nanosecond fraction.
    pub fn from_secs_nanos(seconds: i64, nanoseconds: u32) -> (r: SystemTime)
        requires
            nanoseconds < NANOS_PER_SEC,
        ensures
            r.wf(),
            r@ == seconds * (NANOS_PER_SEC as int) + nanoseconds,
            r.t.seconds == seconds,
            r.t.nanoseconds == nanoseconds,
    {
        SystemTime { t: Timespec { seconds, nanoseconds } }
    }

    /// Wraps a raw clock reading of whole seconds only; the fraction is zero.
    pub fn from_secs(seconds: u32) -> (r: SystemTime)
        ensures
            r.wf(),
            r@ == seconds * (NANOS_PER_SEC as int),
            r.t.seconds == seconds,
            r.t.nanoseconds == 0,
    {
        SystemTime { t: Timespec { seconds: seconds as i64, nanoseconds: 0 } }
    }
}

impl PartialEq for SystemTime {
    /// Structural equality of the wrapped timestamps.
    fn eq(&self, other: &SystemTime) -> (r: bool) {
        self.t == other.t
    }
}

impl vstd::std_specs::cmp::PartialEqSpecImpl for SystemTime {
    open spec fn obeys_eq_spec() -> bool {
        true
    }

    open spec fn eq_spec(&self, other: &SystemTime) -> bool {
        self.t == other.t
    }
}

impl Eq for SystemTime {

}

impl PartialOrd for SystemTime {
    /// Wall-clock values order as their wrapped timestamps.
    fn partial_cmp(&self, other: &SystemTime) -> (r: Option<Ordering>) {
        self.t.partial_cmp(&other.t)
    }
}

impl vstd::std_specs::cmp::PartialOrdSpecImpl for SystemTime {
    open spec fn obeys_partial_cmp_spec() -> bool {
        true
    }

    open spec fn partial_cmp_spec(&self, other: &SystemTime) -> Option<Ordering> {
        if self.t.seconds < other.t.seconds {
            Some(Ordering::Less)
        } else if self.t.seconds > other.t.seconds {
            Some(Ordering::Greater)
        } else if self.t.nanoseconds < other.t.nanoseconds {
            Some(Ordering::Less)
        } else if self.t.nanoseconds > other.t.nanoseconds {
            Some(Ordering::Greater)
        } else {
            Some(Ordering::Equal)
        }
    }
}

} // verus!
