//! The framing of messages on the wire: a four-byte length, least significant
//! byte first, and then that many bytes of body.

use vstd::prelude::*;
use vstd::slice::*;

verus! {

/// The number of bytes that spell a body's length.
pub const PREFIX_LEN: usize = 4;

/// The longest body that a frame can carry.
pub const MAX_BODY_LEN: usize = 0xffff_ffff;

/// The number that the first four bytes of `bytes` spell, least significant
/// byte first.
pub open spec fn prefix_value(bytes: Seq<u8>) -> nat
    recommends
        bytes.len() >= 4,
{
    (bytes[0] as nat) + 256 * (bytes[1] as nat) + 65536 * (bytes[2] as nat) + 16777216 * (
    bytes[3] as nat)
}

/// The four bytes that spell `len`, least significant byte first.
pub open spec fn prefix_of(len: nat) -> Seq<u8>
    recommends
        len <= MAX_BODY_LEN,
{
    seq![
        (len % 256) as u8,
        ((len / 256) % 256) as u8,
        ((len / 65536) % 256) as u8,
        ((len / 16777216) % 256) as u8,
    ]
}

/// A body as it travels: its length, then the body itself.
pub open spec fn framed(body: Seq<u8>) -> Seq<u8>
    recommends
        body.len() <= MAX_BODY_LEN,
{
    prefix_of(body.len()) + body
}

/// What stands at the front of a stream.
pub enum Framing {
    /// The stream closed before any byte of a frame.
    Closed,
    /// The stream closed inside a frame: in its length or in its body.
    Truncated,
    /// A whole frame.
    Whole { body: Seq<u8> },
}

/// What stands at the front of a stream that supplies `stream` and then closes.
pub open spec fn first_frame(stream: Seq<u8>) -> Framing {
    if stream.len() == 0 {
        Framing::Closed
    } else if stream.len() < 4 || stream.len() < 4 + prefix_value(stream) {
        Framing::Truncated
    } else {
        Framing::Whole { body: stream.subrange(4, 4 + prefix_value(stream) as int) }
    }
}

/// How many more bytes a reader that holds `received` needs before it holds a
/// whole frame: the rest of the length while that is incomplete, then the rest
/// of the body.
pub open spec fn bytes_wanted(received: Seq<u8>) -> nat {
    if received.len() < 4 {
        (4 - received.len()) as nat
    } else if received.len() < 4 + prefix_value(received) {
        (4 + prefix_value(received) - received.len()) as nat
    } else {
        0
    }
}

/// A length is what its four bytes spell.
pub proof fn lemma_prefix_roundtrip(len: nat)
    requires
        len <= MAX_BODY_LEN,
    ensures
        prefix_of(len).len() == 4,
        prefix_value(prefix_of(len)) == len,
{
    let b0 = len % 256;
    let b1 = (len / 256) % 256;
    let b2 = (len / 65536) % 256;
    let b3 = (len / 16777216) % 256;
    assert(len == b0 + 256 * b1 + 65536 * b2 + 16777216 * b3);
}

/// Reads the length that the first four bytes of `bytes` spell.
pub fn read_prefix(bytes: &[u8]) -> (len: u32)
    requires
        bytes@.len() >= 4,
    ensures
        len == prefix_value(bytes@),
{
    (bytes[0] as u32) + 256 * (bytes[1] as u32) + 65536 * (bytes[2] as u32) + 16777216 * (
    bytes[3] as u32)
}

/// Spells `len` in four bytes.
pub fn write_prefix(len: u32) -> (bytes: Vec<u8>)
    ensures
        bytes@ == prefix_of(len as nat),
{
    let mut bytes: Vec<u8> = Vec::new();
    bytes.push((len % 256) as u8);
    bytes.push(((len / 256) % 256) as u8);
    bytes.push(((len / 65536) % 256) as u8);
    bytes.push(((len / 16777216) % 256) as u8);
    assert(bytes@ =~= prefix_of(len as nat));
    bytes
}

/// Says how many more bytes must arrive before `received` holds a whole frame.
/// A reader asks the stream for that many, adds what arrived, and asks again
/// until the answer is 0 or the stream closes.
pub fn bytes_needed(received: &[u8]) -> (n: u64)
    ensures
        n == bytes_wanted(received@),
{
    let have: usize = received.len();
    if have < PREFIX_LEN {
        (PREFIX_LEN - have) as u64
    } else {
        let whole: u64 = 4 + read_prefix(received) as u64;
        if (have as u64) < whole {
            whole - have as u64
        } else {
            0
        }
    }
}

} // verus!
