//! A non-negative span of time, counted in whole seconds plus a sub-second
//! nanosecond fraction.

use vstd::prelude::*;

use crate::timespec::NANOS_PER_SEC;

verus! {

/// A non-negative span of time: `secs` whole seconds plus `nanos` nanoseconds,
/// where a well-formed value keeps `nanos` strictly below one second.
///
/// A duration is both an operand of the timestamp arithmetic and the magnitude
/// returned when two timestamps are compared.
#[derive(Clone, Copy, Debug, Hash, PartialEq, Eq, Structural)]
pub struct Duration {
    /// Whole seconds.
    pub secs: u64,
    /// Sub-second fraction, in nanoseconds.
    pub nanos: u32,
}

impl View for Duration {
    type V = int;

    /// A duration denotes its total length in nanoseconds.
    open spec fn view(&self) -> int {
        self.secs * (NANOS_PER_SEC as int) + self.nanos
    }
}

impl Duration {
    /// Normalization invariant: the sub-second field is a valid fraction.
    pub open spec fn wf(self) -> bool {
        self.nanos < NANOS_PER_SEC
    }

    /// Builds a duration from seconds and nanoseconds, carrying whole seconds
    /// out of the nanosecond argument so that the result is normalized.
    pub fn new(secs: u64, nanos: u32) -> (d: Duration)
        requires
            secs + nanos / NANOS_PER_SEC <= u64::MAX,
        ensures
            d.wf(),
            d@ == secs * (NANOS_PER_SEC as int) + nanos,
    {
        if nanos < NANOS_PER_SEC {
            Duration { secs, nanos }
        } else {
            let extra: u32 = nanos / NANOS_PER_SEC;
            proof {
                vstd::arithmetic::div_mod::lemma_fundamental_div_mod(
                    nanos as int,
                    NANOS_PER_SEC as int,
                );
            }
            Duration { secs: secs + extra as u64, nanos: nanos % NANOS_PER_SEC }
        }
    }

    /// A duration of whole seconds with no sub-second fraction.
    pub fn from_secs(secs: u64) -> (d: Duration)
        ensures
            d.wf(),
            d@ == secs * (NANOS_PER_SEC as int),
            d.secs == secs,
            d.nanos == 0,
    {
        Duration { secs, nanos: 0 }
    }

    /// The whole-seconds part.
    pub fn as_secs(&self) -> (s: u64)
        ensures
            s == self.secs,
    {
        self.secs
    }

    /// The sub-second part, in nanoseconds.
    pub fn subsec_nanos(&self) -> (n: u32)
        ensures
            n == self.nanos,
    {
        self.nanos
    }
}

} // verus!
