//! The closed vocabulary of game events exchanged between the two peers.

use vstd::prelude::*;

verus! {

/// One observable game effect, as reported by the engine and carried across
/// the wire.
///
/// The angle of a rotation and the coordinates of a move are 32-bit
/// floating-point quantities to the engine; this layer never interprets them
/// numerically, so it carries each as its IEEE-754 bit pattern (`u32`). The
/// wire format moves those four bytes verbatim, which is what makes the
/// encoding lossless.
///
/// A piece index always fits in one byte: the board is bounded, and exceeding
/// 255 pieces would break invariants far outside this layer.
#[derive(Clone, Copy, PartialEq, Eq, Structural, Debug)]
pub enum GameEvent {
    /// Navigate the turn history to its beginning.
    FirstTurn,
    /// Navigate the turn history one step back.
    PrevTurn,
    /// Navigate the turn history one step forward.
    NextTurn,
    /// Navigate the turn history to its end.
    LastTurn,
    /// A piece was rotated to the given angle (IEEE-754 bits).
    Rotate { piece: u8, angle_bits: u32 },
    /// A piece was moved to the given coordinates (IEEE-754 bits each).
    Move { piece: u8, x_bits: u32, y_bits: u32 },
}

} // verus!
