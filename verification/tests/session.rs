//! Turn-phase state machine tests: gating, phase advance, the full turn
//! cycle, and remote reconciliation.

use rotchess_net::codec::{decode, encode};
use rotchess_net::event::GameEvent;
use rotchess_net::session::{LocalAction, RemoteAction, Session, TurnPhase};

fn a_move() -> GameEvent {
    GameEvent::Move {
        piece: 4,
        x_bits: 2.5f32.to_bits(),
        y_bits: 6.5f32.to_bits(),
    }
}

fn a_rotation() -> GameEvent {
    GameEvent::Rotate {
        piece: 4,
        angle_bits: 1.25f32.to_bits(),
    }
}

#[test]
fn first_peer_starts_moving_second_waits() {
    assert_eq!(Session::new(true).phase, TurnPhase::Move);
    assert_eq!(Session::new(false).phase, TurnPhase::Wait);
}

#[test]
fn rotation_in_move_phase_is_rejected() {
    let mut s = Session::new(true);
    let action = s.submit_local_effect(a_rotation());
    assert!(matches!(action, LocalAction::Revert));
    assert_eq!(s.phase, TurnPhase::Move);
}

#[test]
fn move_in_rotate_phase_is_rejected() {
    let mut s = Session::new(true);
    s.submit_local_effect(a_move());
    assert_eq!(s.phase, TurnPhase::Rotate);
    let action = s.submit_local_effect(a_move());
    assert!(matches!(action, LocalAction::Revert));
    assert_eq!(s.phase, TurnPhase::Rotate);
}

#[test]
fn legal_move_advances_phase_and_transmits() {
    let mut s = Session::new(true);
    let action = s.submit_local_effect(a_move());
    assert_eq!(s.phase, TurnPhase::Rotate);
    match action {
        LocalAction::Transmit(buf) => {
            assert_eq!(decode(&buf), Ok(Some(a_move())));
        }
        _ => panic!("a legal move must transmit, without a deselect"),
    }
}

#[test]
fn full_turn_cycle_ends_waiting() {
    let mut s = Session::new(true);

    let first = s.submit_local_effect(a_move());
    assert_eq!(s.phase, TurnPhase::Rotate);
    assert!(matches!(first, LocalAction::Transmit(_)));

    let second = s.submit_local_effect(a_rotation());
    assert_eq!(s.phase, TurnPhase::Wait);
    match second {
        LocalAction::DeselectThenTransmit(buf) => {
            assert_eq!(decode(&buf), Ok(Some(a_rotation())));
        }
        _ => panic!("a legal rotation must deselect, then transmit"),
    }
}

#[test]
fn navigation_passes_through_without_transition() {
    let mut s = Session::new(true);
    for nav in [
        GameEvent::FirstTurn,
        GameEvent::PrevTurn,
        GameEvent::NextTurn,
        GameEvent::LastTurn,
    ] {
        let action = s.submit_local_effect(nav);
        assert_eq!(s.phase, TurnPhase::Move);
        match action {
            LocalAction::Transmit(buf) => assert_eq!(decode(&buf), Ok(Some(nav))),
            _ => panic!("navigation is never gated"),
        }
    }
}

#[test]
fn remote_move_is_acknowledged_without_leaving_wait() {
    let mut s = Session::new(false);
    let action = s.receive_remote_effect(Some(a_move()));
    assert_eq!(s.phase, TurnPhase::Wait);
    match action {
        RemoteAction::ApplyMoveUncheckedAndAck(ack) => {
            assert_eq!(ack, encode(&None));
            assert_eq!(decode(&ack), Ok(None));
        }
        _ => panic!("a remote move must be applied unchecked and acknowledged"),
    }
}

#[test]
fn remote_rotation_hands_the_turn_over() {
    let mut s = Session::new(false);
    let action = s.receive_remote_effect(Some(a_rotation()));
    assert_eq!(s.phase, TurnPhase::Move);
    assert!(matches!(action, RemoteAction::ApplyRotateUnchecked));
}

#[test]
fn remote_navigation_is_applied_checked() {
    let mut s = Session::new(false);
    let action = s.receive_remote_effect(Some(GameEvent::LastTurn));
    assert_eq!(s.phase, TurnPhase::Wait);
    assert!(matches!(action, RemoteAction::ApplyChecked));
}

#[test]
fn remote_absence_is_ignored() {
    let mut s = Session::new(false);
    let action = s.receive_remote_effect(None);
    assert_eq!(s.phase, TurnPhase::Wait);
    assert!(matches!(action, RemoteAction::Ignore));
}

#[test]
fn two_peers_play_one_full_turn() {
    // One exchanged turn, both ends simulated: the acting peer moves and
    // rotates; the waiting peer reconciles both buffers and ends up owning
    // the turn.
    let mut acting = Session::new(true);
    let mut waiting = Session::new(false);

    let moved = acting.submit_local_effect(a_move());
    let move_wire = match moved {
        LocalAction::Transmit(buf) => buf,
        _ => panic!("the move must transmit"),
    };
    let decoded_move = decode(&move_wire).expect("well-formed by construction");
    let ack = match waiting.receive_remote_effect(decoded_move) {
        RemoteAction::ApplyMoveUncheckedAndAck(ack) => ack,
        _ => panic!("the remote move must be acknowledged"),
    };
    assert_eq!(waiting.phase, TurnPhase::Wait);
    // The acknowledgment reaches the acting peer as an explicit absence.
    let decoded_ack = decode(&ack).expect("well-formed by construction");
    assert!(matches!(
        acting.receive_remote_effect(decoded_ack),
        RemoteAction::Ignore
    ));

    let rotated = acting.submit_local_effect(a_rotation());
    assert_eq!(acting.phase, TurnPhase::Wait);
    let rotate_wire = match rotated {
        LocalAction::DeselectThenTransmit(buf) => buf,
        _ => panic!("the rotation must deselect, then transmit"),
    };
    let decoded_rotate = decode(&rotate_wire).expect("well-formed by construction");
    assert!(matches!(
        waiting.receive_remote_effect(decoded_rotate),
        RemoteAction::ApplyRotateUnchecked
    ));
    assert_eq!(waiting.phase, TurnPhase::Move);
}
