//! Fixed-width integers as they stand in wire records.
use vstd::prelude::*;

verus! {

/// The value of four bytes read in little-endian order.
pub open spec fn le_u32(b0: u8, b1: u8, b2: u8, b3: u8) -> u32 {
    (b0 as u32) | ((b1 as u32) << 8u32) | ((b2 as u32) << 16u32) | ((b3 as u32) << 24u32)
}

/// The value of four bytes read in big-endian order.
pub open spec fn be_u32(b0: u8, b1: u8, b2: u8, b3: u8) -> u32 {
    le_u32(b3, b2, b1, b0)
}

/// The value of two bytes read in big-endian order.
pub open spec fn be_u16(b0: u8, b1: u8) -> u16 {
    ((b0 as u16) << 8u16) | (b1 as u16)
}

/// Byte `i` (0 is the least significant) of `x`.
pub open spec fn byte_of(x: u32, i: u32) -> u8 {
    ((x >> (8 * i)) & 0xff) as u8
}

/// The four bytes of `x` in little-endian order.
pub open spec fn le_bytes(x: u32) -> Seq<u8> {
    seq![byte_of(x, 0), byte_of(x, 1), byte_of(x, 2), byte_of(x, 3)]
}

/// The four bytes of `x` in big-endian order.
pub open spec fn be_bytes(x: u32) -> Seq<u8> {
    seq![byte_of(x, 3), byte_of(x, 2), byte_of(x, 1), byte_of(x, 0)]
}

/// Reading back the little-endian bytes of a value gives the value.
pub proof fn lemma_le_u32_of_bytes(x: u32)
    ensures
        le_u32(byte_of(x, 0), byte_of(x, 1), byte_of(x, 2), byte_of(x, 3)) == x,
{
    assert((((x >> 0u32) & 0xff) as u8 as u32) | ((((x >> 8u32) & 0xff) as u8 as u32) << 8u32)
        | ((((x >> 16u32) & 0xff) as u8 as u32) << 16u32) | ((((x >> 24u32) & 0xff) as u8 as u32)
        << 24u32) == x) by (bit_vector);
}

/// Reads a little-endian `u32` from four bytes.
pub fn read_le_u32(b0: u8, b1: u8, b2: u8, b3: u8) -> (r: u32)
    ensures
        r == le_u32(b0, b1, b2, b3),
{
    (b0 as u32) | ((b1 as u32) << 8u32) | ((b2 as u32) << 16u32) | ((b3 as u32) << 24u32)
}

/// Reads a big-endian `u32` from four bytes.
pub fn read_be_u32(b0: u8, b1: u8, b2: u8, b3: u8) -> (r: u32)
    ensures
        r == be_u32(b0, b1, b2, b3),
{
    read_le_u32(b3, b2, b1, b0)
}

/// Reads a big-endian `u16` from two bytes.
pub fn read_be_u16(b0: u8, b1: u8) -> (r: u16)
    ensures
        r == be_u16(b0, b1),
{
    ((b0 as u16) << 8u16) | (b1 as u16)
}

/// Byte `i` (0 is the least significant) of `x`.
pub fn get_byte(x: u32, i: u32) -> (r: u8)
    requires
        i < 4,
    ensures
        r == byte_of(x, i),
{
    ((x >> (8 * i)) & 0xff) as u8
}

} // verus!
