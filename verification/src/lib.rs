//! Turn synchronization for a two-peer, strictly alternating, move-then-rotate
//! game session over a point-to-point channel.
//!
//! The crate covers three concerns:
//! - [`event`]: the closed vocabulary of game events that cross the wire;
//! - [`codec`]: the fixed-size binary encoding of those events;
//! - [`session`]: the per-peer turn-phase state machine that gates locally
//!   originated effects and reconciles remotely applied ones.
//!
//! Everything else in a running game — windowing, drawing, the move-legality
//! engine, the transport — is an external collaborator that feeds events in
//! and carries buffers across.

pub mod codec;
pub mod event;
pub mod session;
