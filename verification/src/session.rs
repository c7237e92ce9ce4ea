//! The session-state snapshot.
//!
//! A `SessionState` bundles one timeline and one transport state, together
//! with the peer count observed when it was captured. It is an immutable
//! value object: every operation here works on the caller's private copy
//! and has no effect on shared state until the copy is committed back
//! through the coordinator.

use vstd::prelude::*;
use crate::timeline::{TempoError, Timeline};
use crate::transport::TransportState;

verus! {

/// A point-in-time snapshot of the shared timeline and transport state.
///
/// `peer_count` is the number of other peers in the session at capture
/// time; it selects the policy of `request_beat_at_time`.
#[derive(Clone, Copy, PartialEq, Eq, Structural, Debug)]
pub struct SessionState {
    pub timeline: Timeline,
    pub transport: TransportState,
    pub peer_count: usize,
}

impl SessionState {
    /// The snapshot invariant: its timeline is well-formed.
    pub open spec fn wf(self) -> bool {
        self.timeline.wf()
    }

    /// The tempo of the timeline, in micro-bpm.
    pub fn tempo(&self) -> (r: i64)
        ensures
            r == self.timeline.tempo,
    {
        self.timeline.tempo
    }

    /// Set the timeline tempo to `bpm` (micro-bpm), taking effect at
    /// `at_time`: the beat position at `at_time` is preserved. A tempo at
    /// or below zero is rejected and the snapshot kept unchanged.
    pub fn set_tempo(&mut self, bpm: i64, at_time: i64) -> (r: Result<(), TempoError>)
        requires
            old(self).wf(),
            0 < bpm ==> i64::MIN <= old(self).timeline.beat_at(at_time as int) <= i64::MAX,
        ensures
            final(self).wf(),
            final(self).transport == old(self).transport,
            final(self).peer_count == old(self).peer_count,
            0 < bpm ==> r == Ok::<(), TempoError>(()) && final(self).timeline == (Timeline {
                tempo: bpm,
                beat_origin: old(self).timeline.beat_at(at_time as int) as i64,
                time_origin: at_time,
            }) && final(self).timeline.beat_at(at_time as int)
                == old(self).timeline.beat_at(at_time as int),
            bpm <= 0 ==> r == Err::<(), TempoError>(TempoError) && *final(self) == *old(self),
    {
        self.timeline.set_tempo(bpm, at_time)
    }

    /// The beat position (in micro-beats) at the given time. `quantum`
    /// does not affect the result; it is accepted for symmetry with the
    /// phase query.
    pub fn beat_at_time(&self, time: i64, quantum: i64) -> (r: i64)
        requires
            self.wf(),
            i64::MIN <= self.timeline.beat_at(time as int) <= i64::MAX,
        ensures
            r == self.timeline.beat_at(time as int),
    {
        self.timeline.beat_at_time(time, quantum)
    }

    /// The phase (in micro-beats) at the given time for the given
    /// quantum: the beat position modulo `quantum`, always in
    /// `[0, quantum)`, also for negative beat positions.
    pub fn phase_at_time(&self, time: i64, quantum: i64) -> (r: i64)
        requires
            self.wf(),
            0 < quantum,
        ensures
            r == self.timeline.phase_at(time as int, quantum as int),
            0 <= r < quantum,
    {
        self.timeline.phase_at_time(time, quantum)
    }

    /// The time (in microseconds) at which the given beat occurs,
    /// assuming constant tempo. `quantum` does not affect the result; it
    /// is accepted for symmetry with the phase query.
    pub fn time_at_beat(&self, beat: i64, quantum: i64) -> (r: i64)
        requires
            self.wf(),
            i64::MIN <= self.timeline.time_at(beat as int) <= i64::MAX,
        ensures
            r == self.timeline.time_at(beat as int),
    {
        self.timeline.time_at_beat(beat, quantum)
    }

    /// Attempt to map `beat` to `time` in the context of `quantum`, under
    /// the quantized-launch policy selected by the peer count captured in
    /// this snapshot: with no peers the timeline is remapped so that the
    /// beat position at `time` is exactly `beat`; with peers present the
    /// phase at every time is left unchanged and the requested beat lands
    /// at `time` or within one quantum after it.
    pub fn request_beat_at_time(&mut self, beat: i64, time: i64, quantum: i64)
        requires
            old(self).wf(),
            0 < quantum,
            0 < old(self).peer_count ==> i64::MIN <= old(self).timeline.quantized_origin(
                beat as int, time as int, quantum as int) <= i64::MAX,
        ensures
            final(self).wf(),
            final(self).transport == old(self).transport,
            final(self).peer_count == old(self).peer_count,
            final(self).timeline.tempo == old(self).timeline.tempo,
            old(self).peer_count == 0 ==> final(self).timeline == (Timeline {
                tempo: old(self).timeline.tempo,
                beat_origin: beat,
                time_origin: time,
            }) && final(self).timeline.beat_at(time as int) == beat,
            0 < old(self).peer_count ==> {
                &&& final(self).timeline.time_origin == old(self).timeline.time_origin
                &&& final(self).timeline.beat_origin == old(self).timeline.quantized_origin(
                    beat as int, time as int, quantum as int)
                &&& forall|t: int| final(self).timeline.phase_at(t, quantum as int)
                    == old(self).timeline.phase_at(t, quantum as int)
                &&& beat - quantum < final(self).timeline.beat_at(time as int) <= beat
            },
    {
        let peers = self.peer_count;
        self.timeline.request_beat_at_time(beat, time, quantum, peers);
    }

    /// Rudely remap the timeline so that `beat` occurs at `time`,
    /// regardless of the peer count: the unconditional policy of
    /// `request_beat_at_time`, intended for bridging an external clock.
    pub fn force_beat_at_time(&mut self, beat: i64, time: i64, quantum: i64)
        requires
            old(self).wf(),
        ensures
            final(self).wf(),
            final(self).transport == old(self).transport,
            final(self).peer_count == old(self).peer_count,
            final(self).timeline == (Timeline {
                tempo: old(self).timeline.tempo,
                beat_origin: beat,
                time_origin: time,
            }),
            final(self).timeline.beat_at(time as int) == beat,
    {
        self.timeline.force_beat_at_time(beat, time, quantum);
    }

    /// Set whether transport should be playing, taking effect at `time`.
    pub fn set_is_playing(&mut self, is_playing: bool, time: i64)
        ensures
            final(self).timeline == old(self).timeline,
            final(self).peer_count == old(self).peer_count,
            final(self).transport == (TransportState { is_playing, effective_time: time }),
    {
        self.transport.set_is_playing(is_playing, time);
    }

    /// Is transport playing?
    pub fn is_playing(&self) -> (r: bool)
        ensures
            r == self.transport.is_playing,
    {
        self.transport.is_playing()
    }

    /// The time at which the current transport start/stop state took
    /// effect.
    pub fn time_for_is_playing(&self) -> (r: i64)
        ensures
            r == self.transport.effective_time,
    {
        self.transport.time_for_is_playing()
    }

    /// Attempt to map `beat` to the time at which transport starts
    /// playing, in the context of `quantum`. Does nothing when transport
    /// is stopped.
    pub fn request_beat_at_start_playing_time(&mut self, beat: i64, quantum: i64)
        requires
            old(self).wf(),
            0 < quantum,
            old(self).transport.is_playing && 0 < old(self).peer_count
                ==> i64::MIN <= old(self).timeline.quantized_origin(beat as int,
                    old(self).transport.effective_time as int, quantum as int) <= i64::MAX,
        ensures
            final(self).wf(),
            final(self).transport == old(self).transport,
            final(self).peer_count == old(self).peer_count,
            !old(self).transport.is_playing ==> *final(self) == *old(self),
            old(self).transport.is_playing ==> {
                let start = old(self).transport.effective_time as int;
                &&& old(self).peer_count == 0 ==> final(self).timeline == (Timeline {
                    tempo: old(self).timeline.tempo,
                    beat_origin: beat,
                    time_origin: old(self).transport.effective_time,
                }) && final(self).timeline.beat_at(start) == beat
                &&& 0 < old(self).peer_count ==> {
                    &&& forall|t: int| final(self).timeline.phase_at(t, quantum as int)
                        == old(self).timeline.phase_at(t, quantum as int)
                    &&& beat - quantum < final(self).timeline.beat_at(start) <= beat
                }
            },
    {
        if self.is_playing() {
            let start = self.time_for_is_playing();
            self.request_beat_at_time(beat, start, quantum);
        }
    }

    /// Start or stop transport at `time` and, when starting, attempt to
    /// map `beat` to that time in the context of `quantum`.
    pub fn set_is_playing_and_request_beat_at_time(
        &mut self,
        is_playing: bool,
        time: i64,
        beat: i64,
        quantum: i64,
    )
        requires
            old(self).wf(),
            0 < quantum,
            is_playing && 0 < old(self).peer_count ==> i64::MIN <= old(
                self).timeline.quantized_origin(beat as int, time as int, quantum as int)
                <= i64::MAX,
        ensures
            final(self).wf(),
            final(self).peer_count == old(self).peer_count,
            final(self).transport == (TransportState { is_playing, effective_time: time }),
            !is_playing ==> final(self).timeline == old(self).timeline,
            is_playing ==> {
                &&& old(self).peer_count == 0 ==> final(self).timeline == (Timeline {
                    tempo: old(self).timeline.tempo,
                    beat_origin: beat,
                    time_origin: time,
                }) && final(self).timeline.beat_at(time as int) == beat
                &&& 0 < old(self).peer_count ==> {
                    &&& forall|t: int| final(self).timeline.phase_at(t, quantum as int)
                        == old(self).timeline.phase_at(t, quantum as int)
                    &&& beat - quantum < final(self).timeline.beat_at(time as int) <= beat
                }
            },
    {
        self.set_is_playing(is_playing, time);
        if is_playing {
            self.request_beat_at_time(beat, time, quantum);
        }
    }
}

} // verus!
