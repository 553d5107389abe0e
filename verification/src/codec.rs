//! Wire codec for the inverter's framed binary protocol.
//!
//! A request frame is a 10-byte header followed by the request payload:
//! a 2-byte magic marker, the 2-byte "read real-time data" command opcode,
//! the big-endian sequence counter, the big-endian CRC-16/MODBUS of the
//! payload alone, and the big-endian total length (payload length plus 10).

use vstd::prelude::*;
use crate::failure::Failure;

verus! {

/// Size in bytes of the frame header shared by requests and responses.
pub const FRAME_HEADER_LEN: usize = 10;

/// First magic byte of the frame header (ASCII 'H').
pub const MAGIC_0: u8 = 0x48;

/// Second magic byte of the frame header (ASCII 'M').
pub const MAGIC_1: u8 = 0x4d;

/// First byte of the "read real-time data" command opcode.
pub const CMD_GET_DATA_0: u8 = 0xa3;

/// Second byte of the "read real-time data" command opcode.
pub const CMD_GET_DATA_1: u8 = 0x03;

/// CRC-16/MODBUS checksum of a byte sequence.
pub uninterp spec fn crc16_modbus(bytes: Seq<u8>) -> u16;

/// Relies on `crc16::State::<MODBUS>::calculate`: the checksum is a function
/// of the message bytes alone.
#[verifier::external_body]
pub(crate) fn crc16_modbus_of(bytes: &Vec<u8>) -> (r: u16)
    ensures
        r == crc16_modbus(bytes@),
{
    crc16::State::<crc16::MODBUS>::calculate(bytes.as_slice())
}

/// The two big-endian bytes of a 16-bit value.
pub open spec fn be_bytes_u16(v: u16) -> Seq<u8> {
    seq![(v / 256) as u8, (v % 256) as u8]
}

/// The exact bytes of the request frame carrying `payload` under sequence
/// number `sequence`.
pub open spec fn frame_bytes(payload: Seq<u8>, sequence: u16) -> Seq<u8> {
    seq![MAGIC_0, MAGIC_1, CMD_GET_DATA_0, CMD_GET_DATA_1] + be_bytes_u16(sequence)
        + be_bytes_u16(crc16_modbus(payload)) + be_bytes_u16((payload.len() + 10) as u16)
        + payload
}

/// Pushes the two big-endian bytes of `v` onto `out`.
fn push_be_u16(out: &mut Vec<u8>, v: u16)
    ensures
        final(out)@ == old(out)@ + be_bytes_u16(v),
{
    out.push((v / 256) as u8);
    out.push((v % 256) as u8);
    assert(out@ =~= old(out)@ + be_bytes_u16(v));
}

/// Serializes a request into the framed byte layout: magic marker, command
/// opcode, sequence, CRC-16/MODBUS of the payload, total length, payload.
pub fn encode_request(payload: &Vec<u8>, sequence: u16) -> (frame: Vec<u8>)
    requires
        payload@.len() + 10 <= u16::MAX,
    ensures
        frame@ == frame_bytes(payload@, sequence),
{
    let mut frame: Vec<u8> = Vec::new();
    frame.push(MAGIC_0);
    frame.push(MAGIC_1);
    frame.push(CMD_GET_DATA_0);
    frame.push(CMD_GET_DATA_1);
    push_be_u16(&mut frame, sequence);
    let crc = crc16_modbus_of(payload);
    push_be_u16(&mut frame, crc);
    let total_len: u16 = payload.len() as u16 + 10;
    push_be_u16(&mut frame, total_len);
    frame.extend_from_slice(payload.as_slice());
    assert(frame@ =~= frame_bytes(payload@, sequence));
    frame
}

/// Strips the fixed-size header from a raw response: the payload begins at
/// byte offset ten and runs to the end of what was read. A response shorter
/// than the header is an explicit decode failure, never an out-of-range
/// access.
pub fn extract_payload(raw: &Vec<u8>) -> (r: Result<Vec<u8>, Failure>)
    ensures
        raw@.len() < 10 ==> r == Err::<Vec<u8>, Failure>(Failure::Decode),
        raw@.len() >= 10 ==> match r {
            Ok(p) => p@ == raw@.subrange(10, raw@.len() as int),
            Err(_) => false,
        },
{
    if raw.len() < FRAME_HEADER_LEN {
        return Err(Failure::Decode);
    }
    let mut payload: Vec<u8> = Vec::new();
    let mut i: usize = FRAME_HEADER_LEN;
    while i < raw.len()
        invariant
            10 <= i <= raw@.len(),
            payload@.len() == i - 10,
            forall|j: int| 0 <= j < payload@.len() ==> payload@[j] == raw@[10 + j],
        decreases raw@.len() - i,
    {
        payload.push(raw[i]);
        i += 1;
    }
    assert(payload@ =~= raw@.subrange(10, raw@.len() as int));
    Ok(payload)
}

/// Encoding is deterministic: any two frames built from the same payload and
/// the same sequence number are byte-for-byte equal.
pub proof fn lemma_encode_deterministic(payload: Seq<u8>, sequence: u16, f1: Seq<u8>, f2: Seq<u8>)
    requires
        f1 == frame_bytes(payload, sequence),
        f2 == frame_bytes(payload, sequence),
    ensures
        f1 == f2,
{
}

} // verus!
