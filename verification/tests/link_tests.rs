//! Tests of the session-state snapshot and the coordinator.
//!
//! Units: time in microseconds, beats in micro-beats, tempo in micro-bpm.

use ableton_link::link::Link;

const Q: i64 = 4_000_000; // a four-beat quantum

#[test]
fn it_works() {
    assert_eq!(2 + 2, 4);
}

#[test]
fn new_link_starts_stopped_at_beat_zero() {
    let link = Link::new(120_000_000, 1_000).unwrap();
    assert!(!link.is_enabled());
    assert!(!link.is_start_stop_sync_enabled());
    assert_eq!(link.num_peers(), 0);
    let ss = link.capture_app_session_state();
    assert_eq!(ss.tempo(), 120_000_000);
    assert!(!ss.is_playing());
    assert_eq!(ss.beat_at_time(1_000, Q), 0);
}

#[test]
fn new_link_rejects_nonpositive_tempo() {
    assert!(Link::new(0, 0).is_err());
    assert!(Link::new(-120_000_000, 0).is_err());
}

#[test]
fn enable_flags_toggle() {
    let mut link = Link::new(120_000_000, 0).unwrap();
    link.enable(true);
    assert!(link.is_enabled());
    link.enable_start_stop_sync(true);
    assert!(link.is_start_stop_sync_enabled());
    link.enable(false);
    assert!(!link.is_enabled());
}

#[test]
fn captures_without_commit_are_identical() {
    let link = Link::new(120_000_000, 42).unwrap();
    let a = link.capture_app_session_state();
    let b = link.capture_app_session_state();
    assert_eq!(a, b);
    let c = link.capture_audio_session_state();
    assert_eq!(a, c);
}

#[test]
fn commit_publishes_for_later_captures() {
    let mut link = Link::new(120_000_000, 0).unwrap();
    let mut ss = link.capture_audio_session_state();
    ss.set_tempo(90_000_000, 500_000).unwrap();
    ss.set_is_playing(true, 600_000);
    // not yet committed: a fresh capture still sees the old state
    assert_eq!(link.capture_audio_session_state().tempo(), 120_000_000);
    link.commit_audio_session_state(ss);
    let after = link.capture_audio_session_state();
    assert_eq!(after.tempo(), 90_000_000);
    assert!(after.is_playing());
    assert_eq!(after.time_for_is_playing(), 600_000);
}

#[test]
fn with_app_session_state_commits_the_result() {
    let mut link = Link::new(120_000_000, 0).unwrap();
    link.with_app_session_state(|mut ss| {
        ss.set_tempo(100_000_000, 0).unwrap();
        ss
    });
    assert_eq!(link.capture_app_session_state().tempo(), 100_000_000);
}

#[test]
fn snapshot_edits_are_isolated_until_commit() {
    let mut link = Link::new(120_000_000, 0).unwrap();
    let mut ss = link.capture_app_session_state();
    ss.force_beat_at_time(5_000_000, 1_000, Q);
    let untouched = link.capture_app_session_state();
    assert_eq!(untouched.beat_at_time(0, Q), 0);
    link.commit_app_session_state(ss);
    assert_eq!(link.capture_app_session_state().beat_at_time(1_000, Q), 5_000_000);
}

#[test]
fn scenario_120bpm_half_second() {
    let link = Link::new(120_000_000, 0).unwrap();
    let ss = link.capture_app_session_state();
    assert_eq!(ss.beat_at_time(500_000, Q), 1_000_000);
    assert_eq!(ss.phase_at_time(500_000, Q), 1_000_000);
}

#[test]
fn scenario_tempo_change_continuity() {
    let mut link = Link::new(120_000_000, 0).unwrap();
    let mut ss = link.capture_app_session_state();
    ss.set_tempo(60_000_000, 1_000_000).unwrap();
    link.commit_app_session_state(ss);
    let after = link.capture_app_session_state();
    // beat 2.0 at the change, one more second at 60 bpm adds one beat
    assert_eq!(after.beat_at_time(2_000_000, Q), 3_000_000);
}

#[test]
fn scenario_solo_request_beat_at_time() {
    let link = Link::new(120_000_000, 0).unwrap();
    let mut ss = link.capture_app_session_state();
    assert_eq!(ss.peer_count, 0);
    ss.request_beat_at_time(0, 123_456, Q);
    assert_eq!(ss.beat_at_time(123_456, Q), 0);
}

#[test]
fn request_beat_with_peers_defers() {
    let mut link = Link::new(120_000_000, 0).unwrap();
    link.set_num_peers(2);
    let mut ss = link.capture_app_session_state();
    assert_eq!(ss.peer_count, 2);
    let before = ss;
    ss.request_beat_at_time(8_000_000, 456_789, Q);
    for t in [0i64, 456_789, 2_000_000] {
        assert_eq!(ss.phase_at_time(t, Q), before.phase_at_time(t, Q));
    }
    let at = ss.beat_at_time(456_789, Q);
    assert!(8_000_000 - Q < at && at <= 8_000_000);
}

#[test]
fn transport_setter_and_accessors() {
    let link = Link::new(120_000_000, 0).unwrap();
    let mut ss = link.capture_app_session_state();
    ss.set_is_playing(true, 250_000);
    assert!(ss.is_playing());
    assert_eq!(ss.time_for_is_playing(), 250_000);
    ss.set_is_playing(false, 300_000);
    assert!(!ss.is_playing());
    assert_eq!(ss.time_for_is_playing(), 300_000);
}

#[test]
fn request_beat_at_start_playing_time_only_when_playing() {
    let link = Link::new(120_000_000, 0).unwrap();
    let mut ss = link.capture_app_session_state();
    // stopped: a no-op
    let before = ss;
    ss.request_beat_at_start_playing_time(2_000_000, Q);
    assert_eq!(ss, before);
    // playing from 500 ms: beat 2.0 is mapped to that time
    ss.set_is_playing(true, 500_000);
    ss.request_beat_at_start_playing_time(2_000_000, Q);
    assert_eq!(ss.beat_at_time(500_000, Q), 2_000_000);
}

#[test]
fn set_is_playing_and_request_beat_combined() {
    let link = Link::new(120_000_000, 0).unwrap();
    let mut ss = link.capture_app_session_state();
    ss.set_is_playing_and_request_beat_at_time(true, 750_000, 0, Q);
    assert!(ss.is_playing());
    assert_eq!(ss.time_for_is_playing(), 750_000);
    assert_eq!(ss.beat_at_time(750_000, Q), 0);
    // stopping does not touch the timeline
    let timeline_before = ss.timeline;
    ss.set_is_playing_and_request_beat_at_time(false, 800_000, 5_000_000, Q);
    assert!(!ss.is_playing());
    assert_eq!(ss.timeline, timeline_before);
}

#[test]
fn reconcile_is_last_write_wins_by_version() {
    let mut link = Link::new(120_000_000, 0).unwrap();
    let mut proposal = link.capture_app_session_state();
    proposal.set_tempo(140_000_000, 0).unwrap();
    // a commit bumps the version to 1, so a proposal at version 1 is stale
    let current = link.capture_app_session_state();
    link.commit_app_session_state(current);
    link.reconcile_session_state(proposal, 1);
    assert_eq!(link.capture_app_session_state().tempo(), 120_000_000);
    // a newer proposal wins
    link.reconcile_session_state(proposal, 2);
    assert_eq!(link.capture_app_session_state().tempo(), 140_000_000);
}

#[test]
fn clock_travels_with_link() {
    let mut link = Link::new(120_000_000, 0).unwrap();
    let c = link.clock();
    assert_eq!(c.ticks_to_micros(55), 55);
    let platform = ableton_link::clock::Clock::new(125, 3).unwrap();
    link.set_clock(platform);
    assert_eq!(link.clock().ticks_to_micros(6), 250);
}
