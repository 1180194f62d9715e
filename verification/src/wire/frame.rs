//! Frames: every message on the link travels as four bytes that give the
//! length of the body, least significant byte first, followed by the body.
//! The body is the JSON text of the message; a frame carries it as it is.

use vstd::prelude::*;
use vstd::slice::slice_subrange;
use vstd::slice::slice_to_vec;
use crate::wire::error::ProtocolError;

verus! {

/// The largest body that a frame can carry.
pub const MAX_BODY_LEN: u32 = 0xffff_ffff;

/// The four bytes of a length, least significant byte first.
pub open spec fn le_bytes(n: nat) -> Seq<u8> {
    seq![
        (n % 256) as u8,
        (n / 256 % 256) as u8,
        (n / 65536 % 256) as u8,
        (n / 16777216 % 256) as u8,
    ]
}

/// The length that the first four bytes of `header` give.
pub open spec fn le_value(header: Seq<u8>) -> nat {
    (header[0] + 256 * header[1] + 65536 * header[2] + 16777216 * header[3]) as nat
}

/// The frame that carries `body`.
pub open spec fn frame_of(body: Seq<u8>) -> Seq<u8> {
    le_bytes(body.len()) + body
}

/// A buffer holds a whole frame when it holds the four bytes of the length
/// and at least as many bytes after them as the length says.
pub open spec fn holds_frame(buffer: Seq<u8>) -> bool {
    buffer.len() >= 4 && buffer.len() - 4 >= le_value(buffer)
}

/// The body of the frame at the start of `buffer`.
pub open spec fn frame_body(buffer: Seq<u8>) -> Option<Seq<u8>> {
    if holds_frame(buffer) {
        Some(buffer.subrange(4, 4 + le_value(buffer) as int))
    } else {
        None
    }
}

/// Puts `body` into a frame.
///
/// A body of more than `MAX_BODY_LEN` bytes has no frame and is refused
/// with `WriteFailed`.
pub fn encode_message(body: &[u8]) -> (r: Result<Vec<u8>, ProtocolError>)
    ensures
        body@.len() <= MAX_BODY_LEN ==> r is Ok && r->Ok_0@ == frame_of(body@),
        body@.len() > MAX_BODY_LEN ==> r == Err::<Vec<u8>, ProtocolError>(
            ProtocolError::WriteFailed,
        ),
{
    let n = body.len();
    if n > MAX_BODY_LEN as usize {
        return Err(ProtocolError::WriteFailed);
    }
    let mut buffer: Vec<u8> = Vec::with_capacity(4);
    buffer.push((n % 256) as u8);
    buffer.push((n / 256 % 256) as u8);
    buffer.push((n / 65536 % 256) as u8);
    buffer.push((n / 16777216 % 256) as u8);
    assert(buffer@ =~= le_bytes(n as nat));
    let mut copy = slice_to_vec(body);
    buffer.append(&mut copy);
    Ok(buffer)
}

/// The length that a frame's first four bytes announce for its body.
pub fn frame_body_len(header: &[u8; 4]) -> (n: u32)
    ensures
        n == le_value(header@),
{
    let b0 = header[0] as u32;
    let b1 = header[1] as u32;
    let b2 = header[2] as u32;
    let b3 = header[3] as u32;
    b0 + 256 * b1 + 65536 * b2 + 16777216 * b3
}

/// Takes the body out of the frame at the start of `buffer`.
///
/// Bytes after the frame are left aside. A buffer that ends before the
/// frame does is refused with `ShortRead`.
pub fn decode_message(buffer: &[u8]) -> (r: Result<Vec<u8>, ProtocolError>)
    ensures
        match frame_body(buffer@) {
            Some(body) => r is Ok && r->Ok_0@ == body,
            None => r == Err::<Vec<u8>, ProtocolError>(ProtocolError::ShortRead),
        },
{
    if buffer.len() < 4 {
        return Err(ProtocolError::ShortRead);
    }
    let b0 = buffer[0] as u32;
    let b1 = buffer[1] as u32;
    let b2 = buffer[2] as u32;
    let b3 = buffer[3] as u32;
    let n = (b0 + 256 * b1 + 65536 * b2 + 16777216 * b3) as usize;
    if buffer.len() - 4 < n {
        return Err(ProtocolError::ShortRead);
    }
    Ok(slice_to_vec(slice_subrange(buffer, 4, 4 + n)))
}

/// The four bytes of a length give that length back.
pub proof fn lemma_le_round_trip(n: nat)
    requires
        n <= MAX_BODY_LEN,
    ensures
        le_bytes(n).len() == 4,
        le_value(le_bytes(n)) == n,
{
}

/// A frame gives back the body that was put into it, whatever follows the
/// frame in the buffer.
pub proof fn lemma_frame_round_trip(body: Seq<u8>, rest: Seq<u8>)
    requires
        body.len() <= MAX_BODY_LEN,
    ensures
        frame_body(frame_of(body) + rest) == Some(body),
        frame_body(frame_of(body)) == Some(body),
{
    lemma_le_round_trip(body.len());
    let header = le_bytes(body.len());
    let buffer = frame_of(body) + rest;
    assert(buffer[0] == header[0] && buffer[1] == header[1] && buffer[2] == header[2]
        && buffer[3] == header[3]);
    assert(le_value(buffer) == body.len());
    assert(buffer.subrange(4, 4 + body.len() as int) =~= body);
    let alone = frame_of(body);
    assert(alone[0] == header[0] && alone[1] == header[1] && alone[2] == header[2]
        && alone[3] == header[3]);
    assert(alone.subrange(4, 4 + body.len() as int) =~= body);
}

} // verus!
