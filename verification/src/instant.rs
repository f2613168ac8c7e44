//! The monotonic clock value type.

use core::cmp::Ordering;

use vstd::prelude::*;

use crate::duration::Duration;
use crate::timespec::{ts_max_nanos, ts_min_nanos, Timespec, MICROS_PER_SEC, NANOS_PER_SEC};

verus! {

/// A reading of the monotonic clock.  Instants carry no calendar meaning:
/// two instants are only meaningfully compared or subtracted when both came
/// from the same clock source within one process lifetime.
#[derive(Clone, Copy, Debug, Hash)]
pub struct Instant {
    /// The wrapped normalized timestamp.
    pub t: Timespec,
}

impl View for Instant {
    type V = int;

    /// An instant denotes the value of its timestamp.
    open spec fn view(&self) -> int {
        self.t@
    }
}

impl Instant {
    /// Normalization invariant, inherited from the timestamp.
    pub open spec fn wf(self) -> bool {
        self.t.wf()
    }

    /// Wraps a raw clock reading given as seconds plus a microsecond
    /// fraction, scaling the fraction to nanoseconds.
    pub fn from_secs_micros(seconds: i64, microseconds: u32) -> (r: Instant)
        requires
            microseconds < MICROS_PER_SEC,
        ensures
            r.wf(),
            r@ == seconds * (NANOS_PER_SEC as int) + microseconds * 1000,
    {
        Instant { t: Timespec { seconds, nanoseconds: microseconds * 1000 } }
    }

    /// Wraps a raw clock reading given as seconds plus a nanosecond fraction.
    pub fn from_secs_nanos(seconds: i64, nanoseconds: u32) -> (r: Instant)
        requires
            nanoseconds < NANOS_PER_SEC,
        ensures
            r.wf(),
            r@ == seconds * (NANOS_PER_SEC as int) + nanoseconds,
    {
        Instant { t: Timespec { seconds, nanoseconds } }
    }

    /// The difference from `earlier` to `self`, with its direction tag kept:
    /// a backward outcome means the raw source moved backward or the operands
    /// were swapped, and reports the magnitude rather than crashing or lying.
    pub fn elapsed_since(&self, earlier: &Instant) -> (r: Result<Duration, Duration>)
        requires
            self.wf(),
            earlier.wf(),
        ensures
            (r is Ok) == (self@ >= earlier@),
            r matches Ok(d) ==> d.wf() && d@ == self@ - earlier@,
            r matches Err(d) ==> d.wf() && d@ == earlier@ - self@,
    {
        self.t.sub_timespec(&earlier.t)
    }

    /// The elapsed span from `other` to `self`, when `self` is at or after
    /// `other`; absent when `other` is the later reading.
    pub fn checked_sub_instant(&self, other: &Instant) -> (r: Option<Duration>)
        requires
            self.wf(),
            other.wf(),
        ensures
            (r is Some) == (self@ >= other@),
            r matches Some(d) ==> d.wf() && d@ == self@ - other@,
    {
        self.t.sub_timespec(&other.t).ok()
    }

    /// This instant moved forward by a duration; absent on overflow of the
    /// seconds field, never a wrapped value.
    pub fn checked_add_duration(&self, other: &Duration) -> (r: Option<Instant>)
        requires
            self.wf(),
            other.wf(),
        ensures
            (r is Some) == (self@ + other@ <= ts_max_nanos()),
            r matches Some(i) ==> i.wf() && i@ == self@ + other@,
    {
        match self.t.checked_add_duration(other) {
            Some(t) => Some(Instant { t }),
            None => None,
        }
    }

    /// This instant moved backward by a duration; absent on underflow of the
    /// seconds field, never a wrapped value.
    pub fn checked_sub_duration(&self, other: &Duration) -> (r: Option<Instant>)
        requires
            self.wf(),
            other.wf(),
        ensures
            (r is Some) == (self@ - other@ >= ts_min_nanos()),
            r matches Some(i) ==> i.wf() && i@ == self@ - other@,
    {
        match self.t.checked_sub_duration(other) {
            Some(t) => Some(Instant { t }),
            None => None,
        }
    }
}

impl PartialEq for Instant {
    /// Structural equality of the wrapped timestamps.
    fn eq(&self, other: &Instant) -> (r: bool) {
        self.t == other.t
    }
}

impl vstd::std_specs::cmp::PartialEqSpecImpl for Instant {
    open spec fn obeys_eq_spec() -> bool {
        true
    }

    open spec fn eq_spec(&self, other: &Instant) -> bool {
        self.t == other.t
    }
}

impl Eq for Instant {

}

impl PartialOrd for Instant {
    /// Instants order as their wrapped timestamps.
    fn partial_cmp(&self, other: &Instant) -> (r: Option<Ordering>) {
        self.t.partial_cmp(&other.t)
    }
}

impl vstd::std_specs::cmp::PartialOrdSpecImpl for Instant {
    open spec fn obeys_partial_cmp_spec() -> bool {
        true
    }

    open spec fn partial_cmp_spec(&self, other: &Instant) -> Option<Ordering> {
        if self.t.seconds < other.t.seconds {
            Some(Ordering::Less)
        } else if self.t.seconds > other.t.seconds {
            Some(Ordering::Greater)
        } else if self.t.nanoseconds < other.t.nanoseconds {
            Some(Ordering::Less)
        } else if self.t.nanoseconds > other.t.nanoseconds {
            Some(Ordering::Greater)
        } else {
            Some(Ordering::Equal)
        }
    }
}

} // verus!
