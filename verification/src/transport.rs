//! The transport start/stop state.

use vstd::prelude::*;

verus! {

/// Whether transport is playing, and the time (in microseconds) at which
/// that value took effect.
///
/// Callers are expected not to set a transport event strictly before the
/// current effective time, but peers' clocks may differ, so this is
/// advisory and not enforced here.
#[derive(Clone, Copy, PartialEq, Eq, Structural, Debug)]
pub struct TransportState {
    pub is_playing: bool,
    pub effective_time: i64,
}

impl TransportState {
    /// A stopped transport, effective at `at_time`.
    pub fn stopped(at_time: i64) -> (r: TransportState)
        ensures
            r == (TransportState { is_playing: false, effective_time: at_time }),
    {
        TransportState { is_playing: false, effective_time: at_time }
    }

    /// Replace the playing flag and its effective time.
    pub fn set_is_playing(&mut self, is_playing: bool, at_time: i64)
        ensures
            *final(self) == (TransportState { is_playing, effective_time: at_time }),
    {
        self.is_playing = is_playing;
        self.effective_time = at_time;
    }

    /// Is transport playing?
    pub fn is_playing(&self) -> (r: bool)
        ensures
            r == self.is_playing,
    {
        self.is_playing
    }

    /// The time at which the current playing flag took effect.
    pub fn time_for_is_playing(&self) -> (r: i64)
        ensures
            r == self.effective_time,
    {
        self.effective_time
    }
}

} // verus!
