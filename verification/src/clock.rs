//! Conversion between hardware clock ticks and microseconds.
//!
//! A clock holds an immutable calibration: `numer` microseconds pass for
//! every `denom` ticks. Conversions are pure floored-ratio arithmetic and
//! are proved monotonic; a round trip loses less than one tick plus one
//! microsecond's worth of ticks. Reading the current tick count is the
//! platform's business and stays outside this library; tick counter
//! wraparound is likewise the platform's concern, and conversions here are
//! defined for every representable input rather than wrapping silently.

use vstd::prelude::*;
use crate::scale::{lemma_product_bound, lemma_scale_monotonic, lemma_scale_round_trip};

verus! {

/// An immutable tick/microsecond calibration.
#[derive(Clone, Copy, PartialEq, Eq, Structural, Debug)]
pub struct Clock {
    pub numer: u64,
    pub denom: u64,
}

impl Clock {
    /// The calibration invariant: both sides of the ratio are positive.
    pub open spec fn wf(self) -> bool {
        0 < self.numer && 0 < self.denom
    }

    /// The microsecond value of `ticks`, floored.
    pub open spec fn micros_of(self, ticks: int) -> int {
        (ticks * self.numer) / (self.denom as int)
    }

    /// The tick value of `micros`, floored.
    pub open spec fn ticks_of(self, micros: int) -> int {
        (micros * self.denom) / (self.numer as int)
    }

    /// A calibration in which one tick is one microsecond.
    pub fn identity() -> (r: Clock)
        ensures
            r == (Clock { numer: 1u64, denom: 1u64 }),
            r.wf(),
    {
        Clock { numer: 1, denom: 1 }
    }

    /// A calibration of `numer` microseconds per `denom` ticks. Rejected
    /// unless both are positive.
    pub fn new(numer: u64, denom: u64) -> (r: Option<Clock>)
        ensures
            0 < numer && 0 < denom ==> r == Some(Clock { numer, denom })
                && r.unwrap().wf(),
            !(0 < numer && 0 < denom) ==> r == None::<Clock>,
    {
        if numer > 0 && denom > 0 {
            Some(Clock { numer, denom })
        } else {
            None
        }
    }

    /// Convert a tick count to microseconds.
    pub fn ticks_to_micros(&self, ticks: u64) -> (r: i64)
        requires
            self.wf(),
            self.micros_of(ticks as int) <= i64::MAX,
        ensures
            r == self.micros_of(ticks as int),
            0 <= r,
    {
        proof {
            lemma_product_bound(ticks as int, self.numer as int, 0xffff_ffff_ffff_ffff,
                0xffff_ffff_ffff_ffff);
        }
        let num: u128 = (ticks as u128) * (self.numer as u128);
        let q: u128 = num / (self.denom as u128);
        q as i64
    }

    /// Convert a microsecond value to ticks. Times before the clock's
    /// zero have no tick representation and are not accepted.
    pub fn micros_to_ticks(&self, micros: i64) -> (r: u64)
        requires
            self.wf(),
            0 <= micros,
            self.ticks_of(micros as int) <= u64::MAX,
        ensures
            r == self.ticks_of(micros as int),
    {
        proof {
            lemma_product_bound(micros as int, self.denom as int, 0xffff_ffff_ffff_ffff,
                0xffff_ffff_ffff_ffff);
        }
        let num: u128 = (micros as u128) * (self.denom as u128);
        let q: u128 = num / (self.numer as u128);
        q as u64
    }
}

/// The tick-to-microsecond conversion is monotonic.
pub proof fn lemma_clock_monotonic(c: Clock, t1: int, t2: int)
    requires
        c.wf(),
        t1 <= t2,
    ensures
        c.micros_of(t1) <= c.micros_of(t2),
        c.ticks_of(t1) <= c.ticks_of(t2),
{
    lemma_scale_monotonic(t1, t2, c.numer as int, c.denom as int);
    lemma_scale_monotonic(t1, t2, c.denom as int, c.numer as int);
}

/// Converting ticks to microseconds and back ends at or below the
/// original count, within one tick plus one microsecond's worth of ticks;
/// the round trip is exact whenever the tick count falls on a whole
/// microsecond.
pub proof fn lemma_clock_round_trip(c: Clock, ticks: int)
    requires
        c.wf(),
    ensures
        c.ticks_of(c.micros_of(ticks)) <= ticks,
        (ticks - c.ticks_of(c.micros_of(ticks))) * c.numer < c.numer + c.denom,
        (ticks * c.numer) % (c.denom as int) == 0 ==> c.ticks_of(c.micros_of(ticks)) == ticks,
{
    lemma_scale_round_trip(ticks, c.numer as int, c.denom as int);
}

} // verus!
