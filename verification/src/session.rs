//! The per-peer turn-phase state machine, local dispatch, and remote
//! reconciliation.
//!
//! A turn consists of two ordered steps — a move, then a rotation — after
//! which ownership passes to the peer. [`Session`] tracks which step the
//! local peer may originate next and gates effects accordingly. The engine
//! that produces effects and the transport that carries buffers are external
//! collaborators: the session only decides, and hands its caller an explicit
//! action to perform.

use vstd::prelude::*;

use crate::codec::decoded;
use crate::codec::encode;
use crate::codec::encoded;
use crate::codec::lemma_encode_decode_round_trip;
use crate::event::GameEvent;

verus! {

/// Which sub-step of a turn the local peer may originate next.
#[derive(Clone, Copy, PartialEq, Eq, Structural, Debug)]
pub enum TurnPhase {
    /// This peer may originate a move; a rotation now is illegal.
    Move,
    /// This peer may originate a rotation; a move now is illegal.
    Rotate,
    /// Not this peer's turn to act.
    Wait,
}

/// What the caller must do after the session has gated a locally caused
/// effect.
pub enum LocalAction {
    /// The effect was out of phase: replay one history step backwards
    /// against the engine to undo it, and transmit nothing. The opponent
    /// never learns the attempt occurred.
    Revert,
    /// The effect was accepted: hand this buffer to the transport.
    Transmit(Vec<u8>),
    /// A rotation was accepted: first deselect the rotated piece (the
    /// engine's selection model demands it), then hand this buffer to the
    /// transport.
    DeselectThenTransmit(Vec<u8>),
}

/// What the caller must do with a decoded remote event.
pub enum RemoteAction {
    /// Apply the navigation event through the engine's checked entry point.
    ApplyChecked,
    /// Apply the rotation through the engine's unchecked entry point; the
    /// sender validated it before transmitting.
    ApplyRotateUnchecked,
    /// Apply the move through the engine's unchecked entry point, then send
    /// this acknowledgment buffer back: the sender still owns its rotation
    /// step, so the exchange must not hand it a game effect.
    ApplyMoveUncheckedAndAck(Vec<u8>),
    /// The explicit absence of an event: nothing to apply.
    Ignore,
}

/// Whether a locally caused effect is legal in the given phase.
///
/// A move is barred only during the rotation step, a rotation only during
/// the move step; the four navigation effects always pass.
pub open spec fn local_accepts(phase: TurnPhase, e: GameEvent) -> bool {
    match e {
        GameEvent::Move { .. } => !(phase is Rotate),
        GameEvent::Rotate { .. } => !(phase is Move),
        _ => true,
    }
}

/// The phase after dispatching a local effect: a rejected effect leaves it
/// unchanged, an accepted move enters the rotation step, an accepted
/// rotation ends the turn, and navigation never transitions.
pub open spec fn local_step(phase: TurnPhase, e: GameEvent) -> TurnPhase {
    if !local_accepts(phase, e) {
        phase
    } else {
        match e {
            GameEvent::Move { .. } => TurnPhase::Rotate,
            GameEvent::Rotate { .. } => TurnPhase::Wait,
            _ => phase,
        }
    }
}

/// The phase after reconciling a remote event: the peer's rotation ends its
/// turn and opens ours; everything else leaves the phase alone (a remote
/// move means the peer still owes its rotation).
pub open spec fn remote_step(phase: TurnPhase, e: Option<GameEvent>) -> TurnPhase {
    match e {
        Some(GameEvent::Rotate { .. }) => TurnPhase::Move,
        _ => phase,
    }
}

/// One peer's session-scoped protocol state.
///
/// Exactly one value exists per peer per game session; it is re-created,
/// identically initialized, when the board is reset.
pub struct Session {
    /// The sub-step the local peer may originate next.
    pub phase: TurnPhase,
}

impl Session {
    /// A fresh session: the peer that owns the first turn starts at its move
    /// step, the other peer waits.
    pub fn new(my_turn: bool) -> (s: Session)
        ensures
            s.phase == (if my_turn {
                TurnPhase::Move
            } else {
                TurnPhase::Wait
            }),
    {
        Session { phase: if my_turn { TurnPhase::Move } else { TurnPhase::Wait } }
    }

    /// Local dispatch, once the engine has reported the effect `e` of a
    /// locally originated input: gate it against the current phase, advance
    /// the phase, and either reject it or produce the buffer to transmit.
    ///
    /// The caller is responsible for the two outer checks the transport
    /// owns: it must only submit effects while holding turn ownership, and
    /// must perform the returned action against engine and transport.
    pub fn submit_local_effect(&mut self, e: GameEvent) -> (r: LocalAction)
        ensures
            final(self).phase == local_step(old(self).phase, e),
            match r {
                LocalAction::Revert => !local_accepts(old(self).phase, e),
                LocalAction::Transmit(buf) => local_accepts(old(self).phase, e) && !(e is Rotate)
                    && buf@ == encoded(Some(e)),
                LocalAction::DeselectThenTransmit(buf) => local_accepts(old(self).phase, e) && (e
                    is Rotate) && buf@ == encoded(Some(e)),
            },
    {
        match e {
            GameEvent::Move { .. } => {
                if let TurnPhase::Rotate = self.phase {
                    return LocalAction::Revert;
                }
                self.phase = TurnPhase::Rotate;
                LocalAction::Transmit(encode(&Some(e)))
            },
            GameEvent::Rotate { .. } => {
                if let TurnPhase::Move = self.phase {
                    return LocalAction::Revert;
                }
                self.phase = TurnPhase::Wait;
                LocalAction::DeselectThenTransmit(encode(&Some(e)))
            },
            _ => LocalAction::Transmit(encode(&Some(e))),
        }
    }

    /// Remote reconciliation for one decoded inbound event: advance the
    /// phase and say how the event must be applied.
    ///
    /// A remote move or rotation can only arrive while this peer waits —
    /// the sender's own dispatch enforced that order, so its violation is a
    /// protocol bug, not a runtime condition; the caller checks it and
    /// treats a breach as fatal.
    pub fn receive_remote_effect(&mut self, e: Option<GameEvent>) -> (r: RemoteAction)
        requires
            (e matches Some(ev) && (ev is Rotate || ev is Move)) ==> old(self).phase is Wait,
        ensures
            final(self).phase == remote_step(old(self).phase, e),
            match r {
                RemoteAction::ApplyChecked => e matches Some(ev) && !(ev is Rotate) && !(ev
                    is Move),
                RemoteAction::ApplyRotateUnchecked => e matches Some(ev) && ev is Rotate,
                RemoteAction::ApplyMoveUncheckedAndAck(ack) => (e matches Some(ev) && ev is Move)
                    && ack@ == encoded(None),
                RemoteAction::Ignore => e is None,
            },
    {
        match e {
            None => RemoteAction::Ignore,
            Some(GameEvent::Rotate { .. }) => {
                self.phase = TurnPhase::Move;
                RemoteAction::ApplyRotateUnchecked
            },
            Some(GameEvent::Move { .. }) => RemoteAction::ApplyMoveUncheckedAndAck(encode(&None)),
            Some(_) => RemoteAction::ApplyChecked,
        }
    }
}

/// Law: an out-of-phase effect is rejected and leaves the phase unchanged.
/// A rotation attempted during the move step and a move attempted during the
/// rotation step are both barred, so nothing of either reaches the wire.
pub proof fn lemma_out_of_phase_effect_rejected(mv: GameEvent, rot: GameEvent)
    requires
        mv is Move,
        rot is Rotate,
    ensures
        !local_accepts(TurnPhase::Move, rot),
        local_step(TurnPhase::Move, rot) == TurnPhase::Move,
        !local_accepts(TurnPhase::Rotate, mv),
        local_step(TurnPhase::Rotate, mv) == TurnPhase::Rotate,
{
}

/// Law: a move during the move step is accepted, advances the phase to the
/// rotation step, and its transmitted buffer decodes back to exactly that
/// move.
pub proof fn lemma_move_advances_to_rotation(mv: GameEvent)
    requires
        mv is Move,
    ensures
        local_accepts(TurnPhase::Move, mv),
        local_step(TurnPhase::Move, mv) == TurnPhase::Rotate,
        decoded(encoded(Some(mv))) == Some(mv),
{
    lemma_encode_decode_round_trip(Some(mv));
}

/// Law: a full local turn — a move during the move step, then a rotation —
/// is accepted at both steps and ends with this peer waiting, the turn
/// handed to the opponent; each step's buffer decodes back to its effect.
pub proof fn lemma_full_turn_cycle(mv: GameEvent, rot: GameEvent)
    requires
        mv is Move,
        rot is Rotate,
    ensures
        local_accepts(TurnPhase::Move, mv),
        local_accepts(local_step(TurnPhase::Move, mv), rot),
        local_step(local_step(TurnPhase::Move, mv), rot) == TurnPhase::Wait,
        decoded(encoded(Some(mv))) == Some(mv),
        decoded(encoded(Some(rot))) == Some(rot),
{
    lemma_encode_decode_round_trip(Some(mv));
    lemma_encode_decode_round_trip(Some(rot));
}

/// Law: a remote move leaves the receiving peer waiting — the sender still
/// owes its rotation — and the acknowledgment it triggers is the encoding
/// of the explicit no-event sentinel, which decodes back to that absence.
pub proof fn lemma_remote_move_keeps_waiting(mv: GameEvent)
    requires
        mv is Move,
    ensures
        remote_step(TurnPhase::Wait, Some(mv)) == TurnPhase::Wait,
        decoded(encoded(None)) == Option::<GameEvent>::None,
{
    lemma_encode_decode_round_trip(None);
}

} // verus!
