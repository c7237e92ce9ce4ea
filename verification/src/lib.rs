//! Timeline-and-transport synchronization core for a peer-to-peer musical
//! tempo-sync session.
//!
//! The library models a shared musical timeline — a mapping between time in
//! microseconds and a position in beats — together with a transport
//! start/stop state, an immutable session-state snapshot combining the two,
//! and a coordinator that arbitrates capture/commit access to the one
//! authoritative session state.
//!
//! All quantities are exact integers:
//! - time is in microseconds (`i64`),
//! - beat positions and quanta are in micro-beats (`i64`, millionths of a
//!   beat),
//! - tempo is in micro-bpm (`i64`, millionths of a beat per minute).
//!
//! So a tempo of 120 bpm is written `120_000_000`, and a beat position of
//! 1.5 beats is written `1_500_000`.

pub mod clock;
pub mod link;
pub mod scale;
pub mod session;
pub mod timeline;
pub mod transport;
