//! The session-state coordinator.
//!
//! A `Link` holds the one authoritative session state of a participant:
//! the current timeline, the transport start/stop state, the number of
//! connected peers, and a version counter that linearizes commits. Both
//! capture/commit pairs — the audio-thread pair and the application-thread
//! pair — read and write this same state; a capture is a pure function of
//! it, and a commit replaces the timeline and transport and bumps the
//! version. The synchronization that keeps the audio path wait-free, the
//! network reconciliation process, and the callback-delivery thread are
//! the embedding's business and sit outside this library; peer-originated
//! updates reach the coordinator through `reconcile_session_state`, which
//! resolves races against local commits by last-write-wins on the version.

use vstd::prelude::*;
use crate::clock::Clock;
use crate::session::SessionState;
use crate::timeline::{TempoError, Timeline};
use crate::transport::TransportState;

verus! {

/// A participant in a tempo-sync session: the process-wide holder of the
/// authoritative session state.
///
/// Construction gives a disabled participant with the supplied tempo,
/// beat 0 at the supplied current time, transport stopped, no peers, and
/// an identity clock calibration.
#[derive(Clone, Copy, PartialEq, Eq, Structural, Debug)]
pub struct Link {
    pub timeline: Timeline,
    pub transport: TransportState,
    pub peers: usize,
    pub version: u64,
    pub enabled: bool,
    pub start_stop_sync: bool,
    pub clock: Clock,
}

impl Link {
    /// The coordinator invariant: its timeline and clock calibration are
    /// well-formed.
    pub open spec fn wf(self) -> bool {
        self.timeline.wf() && self.clock.wf()
    }

    /// The snapshot a capture returns: the current timeline and transport
    /// with the current peer count stamped in.
    pub open spec fn snapshot(self) -> SessionState {
        SessionState {
            timeline: self.timeline,
            transport: self.transport,
            peer_count: self.peers,
        }
    }

    /// The coordinator after a commit of `ss`: the committed timeline and
    /// transport become current and the version advances by one; peer
    /// count and the enable flags are not part of a snapshot commit.
    pub open spec fn committed(self, ss: SessionState) -> Link {
        Link {
            timeline: ss.timeline,
            transport: ss.transport,
            version: (self.version + 1) as u64,
            ..self
        }
    }

    /// Construct with an initial tempo (micro-bpm) at the current time
    /// `now` (microseconds). A tempo at or below zero is rejected.
    pub fn new(tempo: i64, now: i64) -> (r: Result<Link, TempoError>)
        ensures
            0 < tempo ==> r == Ok::<Link, TempoError>(Link {
                timeline: Timeline { tempo, beat_origin: 0, time_origin: now },
                transport: TransportState { is_playing: false, effective_time: now },
                peers: 0,
                version: 0,
                enabled: false,
                start_stop_sync: false,
                clock: Clock { numer: 1u64, denom: 1u64 },
            }),
            0 < tempo ==> r.unwrap().wf(),
            tempo <= 0 ==> r == Err::<Link, TempoError>(TempoError),
    {
        if tempo <= 0 {
            return Err(TempoError);
        }
        Ok(Link {
            timeline: Timeline { tempo, beat_origin: 0, time_origin: now },
            transport: TransportState::stopped(now),
            peers: 0,
            version: 0,
            enabled: false,
            start_stop_sync: false,
            clock: Clock::identity(),
        })
    }

    /// Is the participant currently enabled?
    pub fn is_enabled(&self) -> (r: bool)
        ensures
            r == self.enabled,
    {
        self.enabled
    }

    /// Enable or disable the participant. While disabled it does not take
    /// part in a session; the timeline keeps advancing either way.
    pub fn enable(&mut self, enable: bool)
        ensures
            *final(self) == (Link { enabled: enable, ..*old(self) }),
    {
        self.enabled = enable;
    }

    /// Is start/stop synchronization enabled?
    pub fn is_start_stop_sync_enabled(&self) -> (r: bool)
        ensures
            r == self.start_stop_sync,
    {
        self.start_stop_sync
    }

    /// Enable or disable sharing of the transport start/stop state with
    /// the session.
    pub fn enable_start_stop_sync(&mut self, enable: bool)
        ensures
            *final(self) == (Link { start_stop_sync: enable, ..*old(self) }),
    {
        self.start_stop_sync = enable;
    }

    /// How many other peers are currently in the session?
    pub fn num_peers(&self) -> (r: usize)
        ensures
            r == self.peers,
    {
        self.peers
    }

    /// Record a change of the peer count, as reported by the peer
    /// discovery collaborator.
    pub fn set_num_peers(&mut self, peers: usize)
        ensures
            *final(self) == (Link { peers, ..*old(self) }),
    {
        self.peers = peers;
    }

    /// The clock calibration used by this participant.
    pub fn clock(&self) -> (r: Clock)
        ensures
            r == self.clock,
    {
        self.clock
    }

    /// Replace the clock calibration with the platform's.
    pub fn set_clock(&mut self, clock: Clock)
        requires
            clock.wf(),
        ensures
            *final(self) == (Link { clock, ..*old(self) }),
    {
        self.clock = clock;
    }

    /// Capture the current session state from the audio thread: a pure
    /// read of the authoritative state, so it never blocks, allocates or
    /// takes a lock.
    pub fn capture_audio_session_state(&self) -> (r: SessionState)
        requires
            self.wf(),
        ensures
            r == self.snapshot(),
            r.wf(),
    {
        SessionState {
            timeline: self.timeline,
            transport: self.transport,
            peer_count: self.peers,
        }
    }

    /// Commit a session state from the audio thread: the given snapshot
    /// replaces the current timeline and transport, and the version
    /// advances, which linearizes this commit against others.
    pub fn commit_audio_session_state(&mut self, ss: SessionState)
        requires
            old(self).wf(),
            ss.wf(),
            old(self).version < u64::MAX,
        ensures
            *final(self) == old(self).committed(ss),
            final(self).wf(),
    {
        self.timeline = ss.timeline;
        self.transport = ss.transport;
        self.version = self.version + 1;
    }

    /// Capture the current session state from an application thread. The
    /// returned snapshot equals what an audio-thread capture of the same
    /// state returns.
    pub fn capture_app_session_state(&self) -> (r: SessionState)
        requires
            self.wf(),
        ensures
            r == self.snapshot(),
            r.wf(),
    {
        self.capture_audio_session_state()
    }

    /// Commit a session state from an application thread: same effect on
    /// the authoritative state as an audio-thread commit.
    pub fn commit_app_session_state(&mut self, ss: SessionState)
        requires
            old(self).wf(),
            ss.wf(),
            old(self).version < u64::MAX,
        ensures
            *final(self) == old(self).committed(ss),
            final(self).wf(),
    {
        self.commit_audio_session_state(ss);
    }

    /// Capture the current session state, hand it to `f`, and commit
    /// whatever `f` returns: one capture-mutate-commit cycle with the
    /// commit guaranteed on the happy path. When `f` exits abnormally
    /// nothing is committed, since this call never returns.
    pub fn with_app_session_state<F: FnOnce(SessionState) -> SessionState>(&mut self, f: F)
        requires
            old(self).wf(),
            old(self).version < u64::MAX,
            call_requires(f, (old(self).snapshot(),)),
            forall|r: SessionState| call_ensures(f, (old(self).snapshot(),), r) ==> r.wf(),
        ensures
            final(self).wf(),
            exists|r: SessionState|
                call_ensures(f, (old(self).snapshot(),), r)
                    && *final(self) == old(self).committed(r),
    {
        let ss = self.capture_app_session_state();
        let changed = f(ss);
        self.commit_app_session_state(changed);
    }

    /// Apply a session state proposed by the peer-reconciliation
    /// collaborator, racing against local commits by last-write-wins on
    /// the version: the proposal takes effect only when its version is
    /// newer than the current one.
    pub fn reconcile_session_state(&mut self, ss: SessionState, version: u64)
        requires
            old(self).wf(),
            ss.wf(),
        ensures
            final(self).wf(),
            old(self).version < version ==> *final(self) == (Link {
                timeline: ss.timeline,
                transport: ss.transport,
                version,
                ..*old(self)
            }),
            version <= old(self).version ==> *final(self) == *old(self),
    {
        if self.version < version {
            self.timeline = ss.timeline;
            self.transport = ss.transport;
            self.version = version;
        }
    }
}

/// Capture/commit isolation: a capture is a pure function of the
/// coordinator's state, so two captures on the same thread with no commit
/// between them return identical session states.
pub proof fn lemma_capture_isolation(link: Link, a: SessionState, b: SessionState)
    requires
        a == link.snapshot(),
        b == link.snapshot(),
    ensures
        a == b,
{
}

} // verus!
