//! Little-endian encoding of the multi-byte values that instructions and the
//! data segment hold.

use byteorder::{ByteOrder, LittleEndian};
use vstd::prelude::*;

verus! {

/// The unsigned 16-bit value that the first two bytes of `bytes` encode,
/// least significant byte first.
pub open spec fn le_u16(bytes: Seq<u8>) -> int {
    bytes[0] + 0x100 * bytes[1]
}

/// The unsigned 32-bit value that the first four bytes of `bytes` encode,
/// least significant byte first.
pub open spec fn le_u32(bytes: Seq<u8>) -> int {
    bytes[0] + 0x100 * bytes[1] + 0x1_0000 * bytes[2] + 0x100_0000 * bytes[3]
}

/// The signed 32-bit value that the first four bytes of `bytes` encode: the
/// two's complement reading of `le_u32`.
pub open spec fn le_i32(bytes: Seq<u8>) -> int {
    if le_u32(bytes) >= 0x8000_0000 {
        le_u32(bytes) - 0x1_0000_0000
    } else {
        le_u32(bytes)
    }
}

/// The bit pattern of a signed 32-bit value, read as an unsigned one.
pub open spec fn twos_complement(value: int) -> int {
    if value < 0 {
        value + 0x1_0000_0000
    } else {
        value
    }
}

/// The four bytes that encode a signed 32-bit value, least significant byte
/// first.
pub open spec fn i32_le_bytes(value: int) -> Seq<u8> {
    let bits = twos_complement(value);
    seq![
        (bits % 0x100) as u8,
        (bits / 0x100 % 0x100) as u8,
        (bits / 0x1_0000 % 0x100) as u8,
        (bits / 0x100_0000 % 0x100) as u8,
    ]
}

/// `byteorder::LittleEndian::read_u16`: the value of the first two bytes of
/// `buf`, least significant first. The call panics on a shorter buffer, which
/// the precondition leaves out.
#[verifier::external_body]
pub(crate) fn read_u16_le(buf: &[u8]) -> (value: u16)
    requires
        buf@.len() >= 2,
    ensures
        value == le_u16(buf@),
{
    LittleEndian::read_u16(buf)
}

/// `byteorder::LittleEndian::read_u32`: the value of the first four bytes of
/// `buf`, least significant first. The call panics on a shorter buffer, which
/// the precondition leaves out.
#[verifier::external_body]
pub(crate) fn read_u32_le(buf: &[u8]) -> (value: u32)
    requires
        buf@.len() >= 4,
    ensures
        value == le_u32(buf@),
{
    LittleEndian::read_u32(buf)
}

/// `byteorder::LittleEndian::read_i32`: the first four bytes of `buf` read as
/// `read_u32` does, then reinterpreted as a signed value. The call panics on a
/// shorter buffer, which the precondition leaves out.
#[verifier::external_body]
pub(crate) fn read_i32_le(buf: &[u8]) -> (value: i32)
    requires
        buf@.len() >= 4,
    ensures
        value == le_i32(buf@),
{
    LittleEndian::read_i32(buf)
}

/// `byteorder::LittleEndian::write_i32_into`, called with one value and a
/// buffer of four bytes: the buffer then holds the value's bit pattern, least
/// significant byte first.
#[verifier::external_body]
pub(crate) fn write_i32_le(value: i32) -> (bytes: [u8; 4])
    ensures
        bytes@ == i32_le_bytes(value as int),
{
    let mut bytes: [u8; 4] = [0u8; 4];
    LittleEndian::write_i32_into(&[value], &mut bytes);
    bytes
}

/// Decoding the four bytes that encode a signed 32-bit value gives the value
/// back.
pub proof fn lemma_i32_le_round_trip(value: i32)
    ensures
        i32_le_bytes(value as int).len() == 4,
        le_i32(i32_le_bytes(value as int)) == value,
{
    let bits = twos_complement(value as int);
    assert(0 <= bits < 0x1_0000_0000);
    assert(bits == bits % 0x100 + 0x100 * (bits / 0x100 % 0x100) + 0x1_0000 * (bits / 0x1_0000
        % 0x100) + 0x100_0000 * (bits / 0x100_0000 % 0x100));
}

/// The value that four bytes encode is a 32-bit value, signed or unsigned,
/// and the value that two bytes encode is a 16-bit one.
pub proof fn lemma_le_ranges(bytes: Seq<u8>)
    ensures
        0 <= le_u16(bytes) <= u16::MAX,
        0 <= le_u32(bytes) <= u32::MAX,
        i32::MIN <= le_i32(bytes) <= i32::MAX,
{
}

} // verus!
