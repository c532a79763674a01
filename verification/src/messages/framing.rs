//! Frames on the wire: a length of four bytes, most significant byte
//! first, followed by that many bytes of payload.

use vstd::prelude::*;

verus! {

pub const HEADER_LENGTH: usize = 4;

/// The four bytes of a length, most significant first.
pub open spec fn spec_length_bytes(length: u32) -> Seq<u8> {
    seq![
        (length / 0x100_0000) as u8,
        ((length / 0x1_0000) % 0x100) as u8,
        ((length / 0x100) % 0x100) as u8,
        (length % 0x100) as u8,
    ]
}

/// The length that four bytes stand for.
pub open spec fn spec_length_of(header: Seq<u8>) -> int {
    header[0] * 0x100_0000 + header[1] * 0x1_0000 + header[2] * 0x100 + header[3]
}

/// The frame of a payload.
pub open spec fn spec_frame(payload: Seq<u8>) -> Seq<u8> {
    spec_length_bytes(payload.len() as u32) + payload
}

/// Puts a payload in a frame. `None` where the payload is longer than a
/// frame can say.
pub fn frame(payload: &Vec<u8>) -> (framed: Option<Vec<u8>>)
    ensures
        match framed {
            Some(bytes) => payload@.len() <= u32::MAX && bytes@ == spec_frame(payload@),
            None => payload@.len() > u32::MAX,
        },
{
    if payload.len() > u32::MAX as usize {
        return None;
    }
    let length = payload.len() as u32;
    let mut bytes: Vec<u8> = Vec::new();
    bytes.push((length / 0x100_0000) as u8);
    bytes.push(((length / 0x1_0000) % 0x100) as u8);
    bytes.push(((length / 0x100) % 0x100) as u8);
    bytes.push((length % 0x100) as u8);
    let mut i: usize = 0;
    while i < payload.len()
        invariant
            i <= payload.len(),
            bytes@ == spec_length_bytes(length) + payload@.take(i as int),
        decreases payload.len() - i,
    {
        bytes.push(payload[i]);
        assert(bytes@ =~= spec_length_bytes(length) + payload@.take(i + 1));
        i = i + 1;
    }
    assert(payload@.take(payload.len() as int) =~= payload@);
    Some(bytes)
}

/// What the start of a buffer holds.
#[derive(Debug, PartialEq, Eq)]
pub enum Unframed {
    /// A whole frame: its payload, and how many bytes of the buffer the
    /// frame takes.
    Frame { payload: Vec<u8>, consumed: usize },
    /// Less than a whole frame; more bytes are needed.
    Incomplete,
}

/// Takes the first frame out of a buffer.
pub fn unframe(buffer: &Vec<u8>) -> (found: Unframed)
    ensures
        match found {
            Unframed::Frame { payload, consumed } => buffer@.len() >= HEADER_LENGTH && consumed
                == HEADER_LENGTH + spec_length_of(buffer@.take(HEADER_LENGTH as int)) && consumed
                <= buffer@.len() && payload@ == buffer@.subrange(
                HEADER_LENGTH as int,
                consumed as int,
            ),
            Unframed::Incomplete => buffer@.len() < HEADER_LENGTH || buffer@.len() < HEADER_LENGTH
                + spec_length_of(buffer@.take(HEADER_LENGTH as int)),
        },
{
    if buffer.len() < HEADER_LENGTH {
        return Unframed::Incomplete;
    }
    let length: u64 = (buffer[0] as u64) * 0x100_0000 + (buffer[1] as u64) * 0x1_0000 + (
    buffer[2] as u64) * 0x100 + (buffer[3] as u64);
    if ((buffer.len() - HEADER_LENGTH) as u64) < length {
        return Unframed::Incomplete;
    }
    let end: usize = HEADER_LENGTH + length as usize;
    let mut payload: Vec<u8> = Vec::new();
    let mut i: usize = HEADER_LENGTH;
    while i < end
        invariant
            HEADER_LENGTH <= i <= end,
            end <= buffer.len(),
            payload@ == buffer@.subrange(HEADER_LENGTH as int, i as int),
        decreases end - i,
    {
        payload.push(buffer[i]);
        assert(payload@ =~= buffer@.subrange(HEADER_LENGTH as int, i + 1));
        i = i + 1;
    }
    Unframed::Frame { payload, consumed: end }
}

/// The length read from a header is the length written to it.
pub proof fn lemma_length_round_trip(length: u32)
    ensures
        spec_length_of(spec_length_bytes(length)) == length,
        spec_length_bytes(length).len() == 4,
{
}

/// A frame, whatever follows it in the buffer, unframes to its payload and
/// takes exactly its own bytes.
pub proof fn lemma_frame_round_trip(payload: Seq<u8>, rest: Seq<u8>)
    requires
        payload.len() <= u32::MAX,
    ensures
        ({
            let buffer = spec_frame(payload) + rest;
            let consumed = HEADER_LENGTH + spec_length_of(buffer.take(HEADER_LENGTH as int));
            &&& consumed == HEADER_LENGTH + payload.len()
            &&& consumed <= buffer.len()
            &&& buffer.subrange(HEADER_LENGTH as int, consumed) == payload
            &&& buffer.skip(consumed) == rest
        }),
{
    let buffer = spec_frame(payload) + rest;
    lemma_length_round_trip(payload.len() as u32);
    assert(buffer.take(HEADER_LENGTH as int) =~= spec_length_bytes(payload.len() as u32));
    assert(buffer.subrange(HEADER_LENGTH as int, HEADER_LENGTH + payload.len()) =~= payload);
    assert(buffer.skip(HEADER_LENGTH + payload.len()) =~= rest);
}

} // verus!
