//! The beat/time mapping of a session.
//!
//! A timeline maps a time in microseconds to a position in micro-beats:
//! starting from `beat_origin` at `time_origin`, the position advances by
//! `tempo` micro-beats per minute. All operations are exact integer
//! arithmetic; divisions round toward negative infinity, so phases are
//! never negative.

use vstd::prelude::*;
use vstd::arithmetic::div_mod::{
    lemma_div_is_ordered, lemma_div_of0, lemma_fundamental_div_mod, lemma_mod_bound,
    lemma_mod_multiples_vanish,
};
use crate::scale::{
    lemma_product_bound, lemma_quotient_between, lemma_scale_monotonic,
    lemma_scale_round_trip,
};

verus! {

/// Microseconds in one minute: relates tempo (micro-beats per minute) to
/// beat advance per microsecond.
pub const MICROS_PER_MINUTE: i64 = 60_000_000;

/// A tempo at or below zero was supplied; the operation was rejected and
/// the previous state kept.
#[derive(Clone, Copy, PartialEq, Eq, Structural, Debug)]
pub struct TempoError;

/// An immutable-per-snapshot mapping between time and beats.
///
/// `tempo` is in micro-bpm (millionths of a beat per minute) and is
/// strictly positive; `beat_origin` is in micro-beats; `time_origin` is in
/// microseconds.
#[derive(Clone, Copy, PartialEq, Eq, Structural, Debug)]
pub struct Timeline {
    pub tempo: i64,
    pub beat_origin: i64,
    pub time_origin: i64,
}

impl Timeline {
    /// The timeline invariant: tempo is strictly positive.
    pub open spec fn wf(self) -> bool {
        0 < self.tempo
    }

    /// The beat position (in micro-beats) at time `time`, as an exact
    /// mathematical value: `beat_origin` plus the floored advance of
    /// `tempo` micro-beats per minute over `time - time_origin`.
    pub open spec fn beat_at(self, time: int) -> int {
        self.beat_origin + ((time - self.time_origin) * self.tempo) / (
        MICROS_PER_MINUTE as int)
    }

    /// The phase at time `time`: the beat position modulo `quantum`,
    /// floored, so it lies in `[0, quantum)` for positive `quantum`.
    pub open spec fn phase_at(self, time: int, quantum: int) -> int {
        self.beat_at(time) % quantum
    }

    /// The time (in microseconds) at which beat `beat` occurs: the floored
    /// inverse of `beat_at` at constant tempo.
    pub open spec fn time_at(self, beat: int) -> int {
        self.time_origin + ((beat - self.beat_origin) * (MICROS_PER_MINUTE as int))
            / (self.tempo as int)
    }

    /// The beat origin after a quantized remap request in a session with
    /// peers: the origin moves by the multiple of `quantum` that brings
    /// the position at `time` to at most `beat`, within one quantum of it.
    pub open spec fn quantized_origin(self, beat: int, time: int, quantum: int) -> int {
        let diff = beat - self.beat_at(time);
        self.beat_origin + diff - (diff % quantum)
    }
}

/// At its own time origin a timeline stands exactly at its beat origin.
proof fn lemma_beat_at_origin(tl: Timeline)
    requires
        tl.wf(),
    ensures
        tl.beat_at(tl.time_origin as int) == tl.beat_origin,
{
    assert((tl.time_origin - tl.time_origin) * tl.tempo == 0) by (nonlinear_arith);
    lemma_div_of0(MICROS_PER_MINUTE as int);
}

impl Timeline {
    /// The beat position at `time`, computed without truncation to `i64`.
    fn beat_at_wide(&self, time: i64) -> (r: i128)
        requires
            self.wf(),
        ensures
            r == self.beat_at(time as int),
            -0x2_0000_0000_0000_0000_0000_0000_0000 <= r
                <= 0x2_0000_0000_0000_0000_0000_0000_0000,
    {
        proof {
            let dt = time - self.time_origin;
            let num = dt * self.tempo;
            let pm: int = 0x1_0000_0000_0000_0000int * 0x7fff_ffff_ffff_ffffint;
            lemma_product_bound(dt, self.tempo as int, 0x1_0000_0000_0000_0000,
                0x7fff_ffff_ffff_ffff);
            lemma_div_is_ordered(num, pm, MICROS_PER_MINUTE as int);
            lemma_div_is_ordered(-pm, num, MICROS_PER_MINUTE as int);
        }
        let dt: i128 = (time as i128) - (self.time_origin as i128);
        let num: i128 = dt * (self.tempo as i128);
        let q: i128 = num.checked_div_euclid(MICROS_PER_MINUTE as i128).unwrap();
        (self.beat_origin as i128) + q
    }

    /// The beat position (in micro-beats) at the given time.
    ///
    /// `quantum` does not affect the result; it is accepted for symmetry
    /// with the phase query.
    pub fn beat_at_time(&self, time: i64, _quantum: i64) -> (r: i64)
        requires
            self.wf(),
            i64::MIN <= self.beat_at(time as int) <= i64::MAX,
        ensures
            r == self.beat_at(time as int),
    {
        let wide = self.beat_at_wide(time);
        wide as i64
    }

    /// The phase (in micro-beats) at the given time for the given quantum:
    /// the beat position modulo `quantum`, always in `[0, quantum)`, also
    /// for negative beat positions.
    pub fn phase_at_time(&self, time: i64, quantum: i64) -> (r: i64)
        requires
            self.wf(),
            0 < quantum,
        ensures
            r == self.phase_at(time as int, quantum as int),
            0 <= r < quantum,
    {
        let wide = self.beat_at_wide(time);
        proof {
            lemma_mod_bound(wide as int, quantum as int);
        }
        let m: i128 = wide.checked_rem_euclid(quantum as i128).unwrap();
        m as i64
    }

    /// The time (in microseconds) at which the given beat occurs,
    /// assuming constant tempo.
    ///
    /// `quantum` does not affect the result; it is accepted for symmetry
    /// with the phase query.
    pub fn time_at_beat(&self, beat: i64, _quantum: i64) -> (r: i64)
        requires
            self.wf(),
            i64::MIN <= self.time_at(beat as int) <= i64::MAX,
        ensures
            r == self.time_at(beat as int),
    {
        let db: i128 = (beat as i128) - (self.beat_origin as i128);
        let num: i128 = db * (MICROS_PER_MINUTE as i128);
        proof {
            lemma_quotient_between(num as int, self.tempo as int);
        }
        let q: i128 = num.checked_div_euclid(self.tempo as i128).unwrap();
        let r: i128 = (self.time_origin as i128) + q;
        r as i64
    }

    /// Re-anchor the timeline so that the beat position at `at_time` under
    /// the old tempo is preserved, then advance at `bpm` (micro-bpm) from
    /// that instant on. A tempo at or below zero is rejected and the
    /// timeline kept unchanged.
    ///
    /// Beat continuity across the change is part of the contract: the
    /// position at `at_time` is the same before and after.
    pub fn set_tempo(&mut self, bpm: i64, at_time: i64) -> (r: Result<(), TempoError>)
        requires
            old(self).wf(),
            0 < bpm ==> i64::MIN <= old(self).beat_at(at_time as int) <= i64::MAX,
        ensures
            final(self).wf(),
            0 < bpm ==> r == Ok::<(), TempoError>(()) && *final(self) == (Timeline {
                tempo: bpm,
                beat_origin: old(self).beat_at(at_time as int) as i64,
                time_origin: at_time,
            }) && final(self).beat_at(at_time as int) == old(self).beat_at(at_time as int),
            bpm <= 0 ==> r == Err::<(), TempoError>(TempoError) && *final(self) == *old(self),
    {
        if bpm <= 0 {
            return Err(TempoError);
        }
        let b = self.beat_at_time(at_time, 1);
        self.beat_origin = b;
        self.time_origin = at_time;
        self.tempo = bpm;
        proof {
            lemma_beat_at_origin(*self);
        }
        Ok(())
    }

    /// Unconditionally remap the timeline so that `beat` occurs at `time`,
    /// keeping the tempo. Bypasses the quantized-launch policy.
    pub fn force_beat_at_time(&mut self, beat: i64, time: i64, _quantum: i64)
        requires
            old(self).wf(),
        ensures
            *final(self) == (Timeline {
                tempo: old(self).tempo,
                beat_origin: beat,
                time_origin: time,
            }),
            final(self).wf(),
            final(self).beat_at(time as int) == beat,
    {
        self.beat_origin = beat;
        self.time_origin = time;
        proof {
            lemma_beat_at_origin(*self);
        }
    }

    /// Attempt to map `beat` to `time` in the context of `quantum`, under
    /// the quantized-launch policy selected by `peers`:
    ///
    /// - with no peers, the timeline is remapped unconditionally, exactly
    ///   as `force_beat_at_time`;
    /// - with peers present, only the beat origin moves, by a whole
    ///   multiple of `quantum`: the phase at every time is unchanged, and
    ///   the requested beat lies at `time` or within one quantum after it,
    ///   so the request takes effect when the running timeline reaches
    ///   that phase.
    pub fn request_beat_at_time(&mut self, beat: i64, time: i64, quantum: i64, peers: usize)
        requires
            old(self).wf(),
            0 < quantum,
            0 < peers ==> i64::MIN <= old(self).quantized_origin(
                beat as int, time as int, quantum as int) <= i64::MAX,
        ensures
            final(self).wf(),
            final(self).tempo == old(self).tempo,
            peers == 0 ==> *final(self) == (Timeline {
                tempo: old(self).tempo,
                beat_origin: beat,
                time_origin: time,
            }) && final(self).beat_at(time as int) == beat,
            0 < peers ==> {
                &&& final(self).time_origin == old(self).time_origin
                &&& final(self).beat_origin == old(self).quantized_origin(
                    beat as int, time as int, quantum as int)
                &&& forall|t: int| final(self).phase_at(t, quantum as int)
                    == old(self).phase_at(t, quantum as int)
                &&& beat - quantum < final(self).beat_at(time as int) <= beat
            },
    {
        if peers == 0 {
            self.force_beat_at_time(beat, time, quantum);
            return;
        }
        let cur: i128 = self.beat_at_wide(time);
        let diff: i128 = (beat as i128) - cur;
        proof {
            lemma_mod_bound(diff as int, quantum as int);
        }
        let delta: i128 = diff.checked_rem_euclid(quantum as i128).unwrap();
        let shift: i128 = diff - delta;
        let origin: i128 = (self.beat_origin as i128) + shift;
        self.beat_origin = origin as i64;
        proof {
            let q = quantum as int;
            let diffi = beat - old(self).beat_at(time as int);
            let k = diffi / q;
            lemma_fundamental_div_mod(diffi, q);
            assert forall|t: int| self.phase_at(t, q)
                == old(self).phase_at(t, q) by {
                assert(self.beat_at(t) == q * k + old(self).beat_at(t));
                lemma_mod_multiples_vanish(k, old(self).beat_at(t), q);
            };
        }
    }
}

/// The phase is never negative and never reaches the quantum: for every
/// time and every positive quantum, `phase_at` lies in `[0, quantum)`.
pub proof fn lemma_phase_in_range(tl: Timeline, time: int, quantum: int)
    requires
        tl.wf(),
        0 < quantum,
    ensures
        0 <= tl.phase_at(time, quantum) < quantum,
{
    lemma_mod_bound(tl.beat_at(time), quantum);
}

/// The beat position never decreases as time advances.
pub proof fn lemma_beat_at_monotonic(tl: Timeline, t1: int, t2: int)
    requires
        tl.wf(),
        t1 <= t2,
    ensures
        tl.beat_at(t1) <= tl.beat_at(t2),
{
    lemma_scale_monotonic(t1 - tl.time_origin, t2 - tl.time_origin, tl.tempo as int,
        MICROS_PER_MINUTE as int);
}

/// Round trip of the mapping: the beat position at `time_at(beat)` is at
/// most `beat` and misses it by less than one microsecond's worth of beat
/// advance plus one micro-beat; when the time conversion is exact — the
/// beat falls on a whole microsecond — the round trip returns `beat`
/// exactly.
pub proof fn lemma_time_beat_round_trip(tl: Timeline, beat: int)
    requires
        tl.wf(),
    ensures
        tl.beat_at(tl.time_at(beat)) <= beat,
        (beat - tl.beat_at(tl.time_at(beat))) * (MICROS_PER_MINUTE as int)
            < (MICROS_PER_MINUTE as int) + tl.tempo,
        ((beat - tl.beat_origin) * (MICROS_PER_MINUTE as int)) % (tl.tempo as int) == 0
            ==> tl.beat_at(tl.time_at(beat)) == beat,
{
    lemma_scale_round_trip(beat - tl.beat_origin, MICROS_PER_MINUTE as int, tl.tempo as int);
}

/// The phase at the time of a beat equals the beat's own phase, floored:
/// `phase_at(time_at(beat), quantum) == beat % quantum`, whenever the beat
/// falls on a whole microsecond.
pub proof fn lemma_phase_at_time_at_beat(tl: Timeline, beat: int, quantum: int)
    requires
        tl.wf(),
        0 < quantum,
        ((beat - tl.beat_origin) * (MICROS_PER_MINUTE as int)) % (tl.tempo as int) == 0,
    ensures
        tl.phase_at(tl.time_at(beat), quantum) == beat % quantum,
{
    lemma_time_beat_round_trip(tl, beat);
}

} // verus!
