//! The wire codec: a closed event vocabulary encoded to and from a
//! fixed-size byte buffer.
//!
//! Every exchanged unit is exactly [`TURN_SIZE`] bytes: one tag byte, then
//! the variant's payload, then zero padding. The tag values 1 through 7 are
//! the protocol's whole vocabulary; any other leading byte is a protocol
//! violation by the remote peer and fatal for the session.

use vstd::prelude::*;

use crate::event::GameEvent;

verus! {

/// Size in bytes of every wire buffer: one tag byte, one piece-index byte,
/// and room for two big-endian 32-bit payload words.
pub const TURN_SIZE: usize = 10;

/// A buffer that could not have been produced by this codec: its tag byte
/// lies outside the protocol's vocabulary. Fatal for the session.
#[derive(Clone, Copy, PartialEq, Eq, Structural, Debug)]
pub enum ProtocolError {
    /// The offending tag byte.
    MalformedTag(u8),
}

/// The four bytes of `v` in big-endian order.
pub open spec fn be_bytes(v: u32) -> Seq<u8> {
    seq![(v >> 24) as u8, (v >> 16) as u8, (v >> 8) as u8, v as u8]
}

/// The 32-bit word spelled by four big-endian bytes.
pub open spec fn word_of_be_bytes(b0: u8, b1: u8, b2: u8, b3: u8) -> u32 {
    ((b0 as u32) << 24) | ((b1 as u32) << 16) | ((b2 as u32) << 8) | (b3 as u32)
}

/// The wire image of an event, or of the explicit absence of one.
///
/// Tags: `FirstTurn` 1, `PrevTurn` 2, `NextTurn` 3, `LastTurn` 4,
/// `Rotate` 5, `Move` 6, absence 7. Unused trailing bytes are zero.
pub open spec fn encoded(e: Option<GameEvent>) -> Seq<u8> {
    match e {
        Some(GameEvent::FirstTurn) => seq![1u8, 0u8, 0u8, 0u8, 0u8, 0u8, 0u8, 0u8, 0u8, 0u8],
        Some(GameEvent::PrevTurn) => seq![2u8, 0u8, 0u8, 0u8, 0u8, 0u8, 0u8, 0u8, 0u8, 0u8],
        Some(GameEvent::NextTurn) => seq![3u8, 0u8, 0u8, 0u8, 0u8, 0u8, 0u8, 0u8, 0u8, 0u8],
        Some(GameEvent::LastTurn) => seq![4u8, 0u8, 0u8, 0u8, 0u8, 0u8, 0u8, 0u8, 0u8, 0u8],
        Some(GameEvent::Rotate { piece, angle_bits }) => seq![5u8, piece] + be_bytes(angle_bits)
            + seq![0u8, 0u8, 0u8, 0u8],
        Some(GameEvent::Move { piece, x_bits, y_bits }) => seq![6u8, piece] + be_bytes(x_bits)
            + be_bytes(y_bits),
        None => seq![7u8, 0u8, 0u8, 0u8, 0u8, 0u8, 0u8, 0u8, 0u8, 0u8],
    }
}

/// Whether the buffer's tag byte belongs to the protocol's vocabulary.
pub open spec fn wire_tag_valid(b: Seq<u8>) -> bool
    recommends
        b.len() == TURN_SIZE,
{
    1 <= b[0] <= 7
}

/// The event (or explicit absence, for tag 7) read back from a well-tagged
/// buffer.
pub open spec fn decoded(b: Seq<u8>) -> Option<GameEvent>
    recommends
        b.len() == TURN_SIZE,
        wire_tag_valid(b),
{
    if b[0] == 1 {
        Some(GameEvent::FirstTurn)
    } else if b[0] == 2 {
        Some(GameEvent::PrevTurn)
    } else if b[0] == 3 {
        Some(GameEvent::NextTurn)
    } else if b[0] == 4 {
        Some(GameEvent::LastTurn)
    } else if b[0] == 5 {
        Some(
            GameEvent::Rotate {
                piece: b[1],
                angle_bits: word_of_be_bytes(b[2], b[3], b[4], b[5]),
            },
        )
    } else if b[0] == 6 {
        Some(
            GameEvent::Move {
                piece: b[1],
                x_bits: word_of_be_bytes(b[2], b[3], b[4], b[5]),
                y_bits: word_of_be_bytes(b[6], b[7], b[8], b[9]),
            },
        )
    } else {
        None
    }
}

/// Appends the four big-endian bytes of `v`.
fn push_be_word(buf: &mut Vec<u8>, v: u32)
    ensures
        final(buf)@ == old(buf)@ + be_bytes(v),
{
    buf.push(#[verifier::truncate] ((v >> 24) as u8));
    buf.push(#[verifier::truncate] ((v >> 16) as u8));
    buf.push(#[verifier::truncate] ((v >> 8) as u8));
    buf.push(#[verifier::truncate] (v as u8));
    proof {
        assert(buf@ =~= old(buf)@ + be_bytes(v));
    }
}

/// Appends zero bytes until the buffer is [`TURN_SIZE`] long.
fn pad_with_zeros(buf: &mut Vec<u8>)
    requires
        old(buf)@.len() <= TURN_SIZE,
    ensures
        final(buf)@.len() == TURN_SIZE,
        forall|i: int| 0 <= i < old(buf)@.len() ==> final(buf)@[i] == old(buf)@[i],
        forall|i: int| old(buf)@.len() <= i < TURN_SIZE ==> final(buf)@[i] == 0u8,
{
    while buf.len() < TURN_SIZE
        invariant
            old(buf)@.len() <= buf@.len() <= TURN_SIZE,
            forall|i: int| 0 <= i < old(buf)@.len() ==> buf@[i] == old(buf)@[i],
            forall|i: int| old(buf)@.len() <= i < buf@.len() ==> buf@[i] == 0u8,
        decreases TURN_SIZE - buf@.len(),
    {
        buf.push(0);
    }
}

/// Encodes an event, or the explicit absence of one, into its wire buffer.
///
/// Total: every representable event has an image, and the image is always
/// exactly [`TURN_SIZE`] bytes.
pub fn encode(e: &Option<GameEvent>) -> (r: Vec<u8>)
    ensures
        r@ == encoded(*e),
        r@.len() == TURN_SIZE,
{
    let mut buf: Vec<u8> = Vec::new();
    match e {
        Some(GameEvent::FirstTurn) => {
            buf.push(1);
        },
        Some(GameEvent::PrevTurn) => {
            buf.push(2);
        },
        Some(GameEvent::NextTurn) => {
            buf.push(3);
        },
        Some(GameEvent::LastTurn) => {
            buf.push(4);
        },
        Some(GameEvent::Rotate { piece, angle_bits }) => {
            buf.push(5);
            buf.push(*piece);
            push_be_word(&mut buf, *angle_bits);
        },
        Some(GameEvent::Move { piece, x_bits, y_bits }) => {
            buf.push(6);
            buf.push(*piece);
            push_be_word(&mut buf, *x_bits);
            push_be_word(&mut buf, *y_bits);
        },
        None => {
            buf.push(7);
        },
    }
    pad_with_zeros(&mut buf);
    proof {
        assert(buf@ =~= encoded(*e));
    }
    buf
}

/// Reads the big-endian 32-bit word starting at index `i`.
fn read_be_word(buf: &Vec<u8>, i: usize) -> (v: u32)
    requires
        i + 4 <= buf@.len(),
        buf@.len() == TURN_SIZE,
    ensures
        v == word_of_be_bytes(buf@[i as int], buf@[i as int + 1], buf@[i as int + 2], buf@[i as int + 3]),
{
    ((buf[i] as u32) << 24) | ((buf[i + 1] as u32) << 16) | ((buf[i + 2] as u32) << 8) | (buf[i
        + 3] as u32)
}

/// Decodes a wire buffer back into an event, or into the explicit absence of
/// one for tag 7.
///
/// Succeeds exactly when the tag byte belongs to the vocabulary; any other
/// tag is a protocol violation by the sender, reported as an error so the
/// caller can terminate the session.
pub fn decode(buf: &Vec<u8>) -> (r: Result<Option<GameEvent>, ProtocolError>)
    requires
        buf@.len() == TURN_SIZE,
    ensures
        match r {
            Ok(e) => wire_tag_valid(buf@) && e == decoded(buf@),
            Err(err) => !wire_tag_valid(buf@) && err == ProtocolError::MalformedTag(buf@[0]),
        },
{
    let tag = buf[0];
    if tag == 1 {
        Ok(Some(GameEvent::FirstTurn))
    } else if tag == 2 {
        Ok(Some(GameEvent::PrevTurn))
    } else if tag == 3 {
        Ok(Some(GameEvent::NextTurn))
    } else if tag == 4 {
        Ok(Some(GameEvent::LastTurn))
    } else if tag == 5 {
        let piece = buf[1];
        let angle_bits = read_be_word(buf, 2);
        Ok(Some(GameEvent::Rotate { piece, angle_bits }))
    } else if tag == 6 {
        let piece = buf[1];
        let x_bits = read_be_word(buf, 2);
        let y_bits = read_be_word(buf, 6);
        Ok(Some(GameEvent::Move { piece, x_bits, y_bits }))
    } else if tag == 7 {
        Ok(None)
    } else {
        Err(ProtocolError::MalformedTag(tag))
    }
}

/// A 32-bit word survives the trip through its big-endian bytes.
proof fn lemma_word_round_trip(v: u32)
    ensures
        word_of_be_bytes((v >> 24) as u8, (v >> 16) as u8, (v >> 8) as u8, v as u8) == v,
{
    assert((((v >> 24) as u8 as u32) << 24) | (((v >> 16) as u8 as u32) << 16) | (((v
        >> 8) as u8 as u32) << 8) | ((v as u8) as u32) == v) by (bit_vector);
}

/// Law: the codec round-trips. Every representable event — the explicit
/// absence included — has a well-tagged, fixed-size image, and decoding that
/// image yields the event back exactly, payload bits and all.
pub proof fn lemma_encode_decode_round_trip(e: Option<GameEvent>)
    ensures
        encoded(e).len() == TURN_SIZE,
        wire_tag_valid(encoded(e)),
        decoded(encoded(e)) == e,
{
    match e {
        Some(GameEvent::Rotate { angle_bits, .. }) => {
            lemma_word_round_trip(angle_bits);
        },
        Some(GameEvent::Move { x_bits, y_bits, .. }) => {
            lemma_word_round_trip(x_bits);
            lemma_word_round_trip(y_bits);
        },
        _ => {},
    }
}

} // verus!
