//! Tests of the timeline and clock mathematics, on concrete values.
//!
//! Units: time in microseconds, beats in micro-beats, tempo in micro-bpm.

use ableton_link::clock::Clock;
use ableton_link::timeline::Timeline;

const Q: i64 = 4_000_000; // a four-beat quantum

fn tl_120() -> Timeline {
    // 120 bpm, beat 0 at time 0
    Timeline { tempo: 120_000_000, beat_origin: 0, time_origin: 0 }
}

#[test]
fn beat_at_time_120bpm_half_second() {
    // 120 bpm is 2 beats per second: 0.5 s after the origin is beat 1.0.
    let tl = tl_120();
    assert_eq!(tl.beat_at_time(500_000, Q), 1_000_000);
    assert_eq!(tl.phase_at_time(500_000, Q), 1_000_000);
}

#[test]
fn beat_at_time_before_origin() {
    let tl = tl_120();
    assert_eq!(tl.beat_at_time(-250_000, Q), -500_000);
}

#[test]
fn phase_is_never_negative() {
    // At beat -0.5 the phase within a 4-beat quantum is 3.5, not -0.5.
    let tl = tl_120();
    assert_eq!(tl.phase_at_time(-250_000, Q), 3_500_000);
    let p = tl.phase_at_time(-123_456_789, Q);
    assert!(0 <= p && p < Q);
}

#[test]
fn time_at_beat_is_inverse() {
    let tl = tl_120();
    let t = tl.time_at_beat(1_000_000, Q);
    assert_eq!(t, 500_000);
    assert_eq!(tl.beat_at_time(t, Q), 1_000_000);
}

#[test]
fn time_beat_round_trip_at_odd_tempo() {
    // 121 bpm: a beat does not fall on a whole microsecond, so the round
    // trip may land just below the requested beat, never above it.
    let tl = Timeline { tempo: 121_000_000, beat_origin: 0, time_origin: 0 };
    let b: i64 = 7_654_321;
    let t = tl.time_at_beat(b, Q);
    let back = tl.beat_at_time(t, Q);
    assert!(back <= b);
    // error is below one microsecond's beat advance plus one micro-beat:
    // tempo/60e6 + 1 is about 3 micro-beats at 121 bpm
    assert!((b - back) * 60_000_000 < 60_000_000 + tl.tempo);
}

#[test]
fn set_tempo_keeps_beat_at_change_time() {
    // From 120 bpm, after one second the position is beat 2.0; halving the
    // tempo there gives beat 3.0 one second later.
    let mut tl = tl_120();
    let before = tl.beat_at_time(1_000_000, Q);
    assert_eq!(before, 2_000_000);
    tl.set_tempo(60_000_000, 1_000_000).unwrap();
    assert_eq!(tl.beat_at_time(1_000_000, Q), before);
    assert_eq!(tl.beat_at_time(2_000_000, Q), 3_000_000);
}

#[test]
fn set_tempo_rejects_nonpositive() {
    let mut tl = tl_120();
    assert!(tl.set_tempo(0, 0).is_err());
    assert!(tl.set_tempo(-5, 0).is_err());
    // the previous tempo is retained
    assert_eq!(tl.tempo, 120_000_000);
    assert_eq!(tl.beat_at_time(500_000, Q), 1_000_000);
}

#[test]
fn force_beat_at_time_remaps() {
    let mut tl = tl_120();
    tl.force_beat_at_time(9_000_000, 777_777, Q);
    assert_eq!(tl.beat_at_time(777_777, Q), 9_000_000);
    assert_eq!(tl.tempo, 120_000_000);
}

#[test]
fn request_beat_with_no_peers_jumps() {
    let mut tl = tl_120();
    tl.request_beat_at_time(0, 123_456, Q, 0);
    assert_eq!(tl.beat_at_time(123_456, Q), 0);
}

#[test]
fn request_beat_with_peers_keeps_phase() {
    let mut tl = tl_120();
    let before = tl;
    // ask for beat 0 at a time whose phase is 0.9...: with peers present
    // the phase at every time must stay what it was
    tl.request_beat_at_time(0, 456_789, Q, 3);
    for t in [0i64, 123_456, 456_789, 1_000_000, -777_777] {
        assert_eq!(tl.phase_at_time(t, Q), before.phase_at_time(t, Q));
    }
    // the requested beat lies at the requested time or within one quantum
    // after it
    let at = tl.beat_at_time(456_789, Q);
    assert!(0 - Q < at && at <= 0);
    // tempo and time origin are untouched
    assert_eq!(tl.tempo, before.tempo);
    assert_eq!(tl.time_origin, before.time_origin);
}

#[test]
fn clock_identity_is_one_to_one() {
    let c = Clock::identity();
    assert_eq!(c.ticks_to_micros(123_456_789), 123_456_789);
    assert_eq!(c.micros_to_ticks(987_654_321), 987_654_321);
}

#[test]
fn clock_ratio_conversions() {
    // 125 microseconds for every 3 ticks
    let c = Clock::new(125, 3).unwrap();
    assert_eq!(c.ticks_to_micros(6), 250);
    assert_eq!(c.ticks_to_micros(7), 291); // floored
    assert_eq!(c.micros_to_ticks(250), 6);
    // round trip never gains ticks
    for t in [0u64, 1, 2, 5, 97, 1_000_003] {
        let back = c.micros_to_ticks(c.ticks_to_micros(t));
        assert!(back <= t);
        assert!((t - back) * c.numer < c.numer + c.denom);
    }
}

#[test]
fn clock_rejects_zero_calibration() {
    assert!(Clock::new(0, 3).is_none());
    assert!(Clock::new(3, 0).is_none());
}
