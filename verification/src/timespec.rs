//! The normalized timestamp pair and its carry-safe arithmetic.

use core::cmp::Ordering;

use vstd::prelude::*;
use vstd::std_specs::cmp::PartialOrdSpec;

use crate::duration::Duration;

verus! {

/// Number of nanoseconds in one second.
pub const NANOS_PER_SEC: u32 = 1_000_000_000;

/// Number of microseconds in one second.
pub const MICROS_PER_SEC: u32 = 1_000_000;

/// A point in time: a signed whole-seconds count plus a sub-second nanosecond
/// fraction.  A well-formed value keeps the fraction in `[0, NANOS_PER_SEC)`,
/// so the pair reads as a two-limb radix-1e9 number and ordering, equality and
/// hashing can all treat it as one value.
#[derive(Clone, Copy, Debug, Hash)]
pub struct Timespec {
    /// Whole seconds; negative values lie before the reference instant.
    pub seconds: i64,
    /// Sub-second fraction, in nanoseconds.
    pub nanoseconds: u32,
}

impl View for Timespec {
    type V = int;

    /// A timestamp denotes its distance from the reference instant,
    /// in nanoseconds.
    open spec fn view(&self) -> int {
        self.seconds * (NANOS_PER_SEC as int) + self.nanoseconds
    }
}

/// The largest value a well-formed timestamp can denote.
pub open spec fn ts_max_nanos() -> int {
    i64::MAX * (NANOS_PER_SEC as int) + (NANOS_PER_SEC - 1)
}

/// The smallest value a well-formed timestamp can denote.
pub open spec fn ts_min_nanos() -> int {
    i64::MIN * (NANOS_PER_SEC as int)
}

/// The difference of `a` and `b` runs forward when `a` is at or after `b`.
pub open spec fn difference_is_forward(a: Timespec, b: Timespec) -> bool {
    a@ >= b@
}

/// The non-negative magnitude of the difference of `a` and `b`.
pub open spec fn difference_magnitude(a: Timespec, b: Timespec) -> int {
    if a@ >= b@ {
        a@ - b@
    } else {
        b@ - a@
    }
}

impl Timespec {
    /// Normalization invariant: the sub-second field is a valid fraction.
    pub open spec fn wf(self) -> bool {
        self.nanoseconds < NANOS_PER_SEC
    }

    /// The additive identity: zero seconds, zero nanoseconds.
    pub fn zero() -> (r: Timespec)
        ensures
            r.wf(),
            r@ == 0,
            r.seconds == 0,
            r.nanoseconds == 0,
    {
        Timespec { seconds: 0, nanoseconds: 0 }
    }

    /// Builds a timestamp from an already-normalized pair.
    pub fn new(seconds: i64, nanoseconds: u32) -> (r: Timespec)
        requires
            nanoseconds < NANOS_PER_SEC,
        ensures
            r.wf(),
            r.seconds == seconds,
            r.nanoseconds == nanoseconds,
            r@ == seconds * (NANOS_PER_SEC as int) + nanoseconds,
    {
        Timespec { seconds, nanoseconds }
    }

    /// The non-negative difference of two timestamps, tagged with its
    /// direction: `Ok` runs forward (`self` at or after `other`), `Err` runs
    /// backward.  Either way the magnitude is `difference_magnitude`.
    pub fn sub_timespec(&self, other: &Timespec) -> (r: Result<Duration, Duration>)
        requires
            self.wf(),
            other.wf(),
        ensures
            (r is Ok) == difference_is_forward(*self, *other),
            r matches Ok(d) ==> d.wf() && d@ == difference_magnitude(*self, *other),
            r matches Err(d) ==> d.wf() && d@ == difference_magnitude(*self, *other),
        decreases (if self@ >= other@ { 0int } else { 1int }),
    {
        proof {
            lemma_order_matches_value(*self, *other);
        }
        if self.seconds > other.seconds
            || (self.seconds == other.seconds && self.nanoseconds >= other.nanoseconds) {
            if self.nanoseconds >= other.nanoseconds {
                let diff: i128 = self.seconds as i128 - other.seconds as i128;
                Ok(Duration { secs: diff as u64, nanos: self.nanoseconds - other.nanoseconds })
            } else {
                // borrow one second to keep the fraction non-negative
                let diff: i128 = self.seconds as i128 - 1 - other.seconds as i128;
                Ok(
                    Duration {
                        secs: diff as u64,
                        nanos: self.nanoseconds + NANOS_PER_SEC - other.nanoseconds,
                    },
                )
            }
        } else {
            match other.sub_timespec(self) {
                Ok(d) => Err(d),
                Err(d) => Ok(d),
            }
        }
    }

    /// Adds a duration, carrying the fraction and checking the seconds field:
    /// the result is absent exactly when the sum would pass the largest
    /// representable timestamp.
    pub fn checked_add_duration(&self, other: &Duration) -> (r: Option<Timespec>)
        requires
            self.wf(),
            other.wf(),
        ensures
            (r is Some) == (self@ + other@ <= ts_max_nanos()),
            r matches Some(t) ==> t.wf() && t@ == self@ + other@,
    {
        let total: i128 = self.seconds as i128 + other.secs as i128;
        if total > i64::MAX as i128 {
            return None;
        }
        let mut secs: i64 = total as i64;
        let mut nsec: u32 = other.nanos + self.nanoseconds;
        if nsec >= NANOS_PER_SEC {
            nsec -= NANOS_PER_SEC;
            secs = match secs.checked_add(1) {
                Some(s) => s,
                None => {
                    return None;
                },
            };
        }
        Some(Timespec { seconds: secs, nanoseconds: nsec })
    }

    /// Subtracts a duration, borrowing into the fraction and checking the
    /// seconds field: the result is absent exactly when the difference would
    /// pass the smallest representable timestamp.
    pub fn checked_sub_duration(&self, other: &Duration) -> (r: Option<Timespec>)
        requires
            self.wf(),
            other.wf(),
        ensures
            (r is Some) == (self@ - other@ >= ts_min_nanos()),
            r matches Some(t) ==> t.wf() && t@ == self@ - other@,
    {
        let total: i128 = self.seconds as i128 - other.secs as i128;
        if total < i64::MIN as i128 {
            return None;
        }
        let mut secs: i64 = total as i64;
        let diff: i64 = self.nanoseconds as i64 - other.nanos as i64;
        let nsec: u32;
        if diff < 0 {
            nsec = (diff + NANOS_PER_SEC as i64) as u32;
            secs = match secs.checked_sub(1) {
                Some(s) => s,
                None => {
                    return None;
                },
            };
        } else {
            nsec = diff as u32;
        }
        Some(Timespec { seconds: secs, nanoseconds: nsec })
    }
}

impl PartialEq for Timespec {
    /// Structural equality: both fields agree exactly, with no tolerance.
    fn eq(&self, other: &Timespec) -> (r: bool) {
        self.seconds == other.seconds && self.nanoseconds == other.nanoseconds
    }
}

impl vstd::std_specs::cmp::PartialEqSpecImpl for Timespec {
    open spec fn obeys_eq_spec() -> bool {
        true
    }

    open spec fn eq_spec(&self, other: &Timespec) -> bool {
        self.seconds == other.seconds && self.nanoseconds == other.nanoseconds
    }
}

impl Eq for Timespec {

}

impl PartialOrd for Timespec {
    /// The total order: lexicographic on the (seconds, nanoseconds) pair.
    fn partial_cmp(&self, other: &Timespec) -> (r: Option<Ordering>) {
        if self.seconds < other.seconds {
            Some(Ordering::Less)
        } else if self.seconds > other.seconds {
            Some(Ordering::Greater)
        } else if self.nanoseconds < other.nanoseconds {
            Some(Ordering::Less)
        } else if self.nanoseconds > other.nanoseconds {
            Some(Ordering::Greater)
        } else {
            Some(Ordering::Equal)
        }
    }
}

impl vstd::std_specs::cmp::PartialOrdSpecImpl for Timespec {
    open spec fn obeys_partial_cmp_spec() -> bool {
        true
    }

    open spec fn partial_cmp_spec(&self, other: &Timespec) -> Option<Ordering> {
        if self.seconds < other.seconds {
            Some(Ordering::Less)
        } else if self.seconds > other.seconds {
            Some(Ordering::Greater)
        } else if self.nanoseconds < other.nanoseconds {
            Some(Ordering::Less)
        } else if self.nanoseconds > other.nanoseconds {
            Some(Ordering::Greater)
        } else {
            Some(Ordering::Equal)
        }
    }
}

/// The comparison operators order well-formed timestamps exactly as the
/// values they denote.
pub proof fn lemma_partial_cmp_matches_value(a: Timespec, b: Timespec)
    requires
        a.wf(),
        b.wf(),
    ensures
        (a.partial_cmp_spec(&b) == Some(Ordering::Less)) <==> a@ < b@,
        (a.partial_cmp_spec(&b) == Some(Ordering::Equal)) <==> a@ == b@,
        (a.partial_cmp_spec(&b) == Some(Ordering::Greater)) <==> a@ > b@,
{
    lemma_order_matches_value(a, b);
    lemma_order_matches_value(b, a);
}

/// The lexicographic order on the (seconds, nanoseconds) pair agrees with the
/// order of the values the pairs denote, so every comparison may treat a
/// normalized timestamp as a single radix-1e9 number.
pub proof fn lemma_order_matches_value(a: Timespec, b: Timespec)
    requires
        a.wf(),
        b.wf(),
    ensures
        (a@ >= b@) <==> (a.seconds > b.seconds
            || (a.seconds == b.seconds && a.nanoseconds >= b.nanoseconds)),
{
    if a.seconds > b.seconds {
        assert((a.seconds - b.seconds) * (NANOS_PER_SEC as int) >= 1 * (NANOS_PER_SEC as int))
            by (nonlinear_arith)
            requires
                a.seconds - b.seconds >= 1,
        ;
    }
    if a.seconds < b.seconds {
        assert((b.seconds - a.seconds) * (NANOS_PER_SEC as int) >= 1 * (NANOS_PER_SEC as int))
            by (nonlinear_arith)
            requires
                b.seconds - a.seconds >= 1,
        ;
    }
}

/// Two well-formed timestamps denoting the same value are the same timestamp.
pub proof fn lemma_view_injective(a: Timespec, b: Timespec)
    requires
        a.wf(),
        b.wf(),
        a@ == b@,
    ensures
        a == b,
{
    lemma_order_matches_value(a, b);
    lemma_order_matches_value(b, a);
}

/// Round trip: when adding `d` to `t` succeeds with sum `s`, subtracting `d`
/// from `s` succeeds as well, and any well-formed result `r` of that
/// subtraction is exactly `t`.
pub proof fn lemma_add_sub_round_trip(t: Timespec, d: Duration, s: Timespec, r: Timespec)
    requires
        t.wf(),
        d.wf(),
        s.wf(),
        r.wf(),
        s@ == t@ + d@,
        r@ == s@ - d@,
    ensures
        s@ - d@ >= ts_min_nanos(),
        r == t,
{
    lemma_view_injective(r, t);
}

/// The two directions of `difference` agree in magnitude.
pub proof fn lemma_difference_magnitude_symmetric(a: Timespec, b: Timespec)
    ensures
        difference_magnitude(a, b) == difference_magnitude(b, a),
{
}

/// Distinct timestamps are differenced with opposite direction tags.
pub proof fn lemma_difference_direction_antisymmetric(a: Timespec, b: Timespec)
    requires
        a@ != b@,
    ensures
        difference_is_forward(a, b) == !difference_is_forward(b, a),
{
}

} // verus!
