//! Bit-level primitives for the process-data codec.
//!
//! Process-data objects are bit-packed, little-endian records inside byte
//! buffers.  Everything the codec needs reduces to three operations: testing
//! a single bit of a byte, packing eight flags into a byte, and moving
//! fixed-width integers to and from little-endian byte groups.

use vstd::prelude::*;

verus! {

/// Bit `k` of the byte `b`, counting from the least significant bit.
pub open spec fn bit_u8(b: u8, k: u8) -> bool {
    (b >> k) & 1 == 1
}

/// The eight flags `b0..b7` packed into one byte, `b0` at bit 0.
pub open spec fn pack8(
    b0: bool, b1: bool, b2: bool, b3: bool, b4: bool, b5: bool, b6: bool, b7: bool,
) -> u8 {
    (if b0 { 1u8 } else { 0u8 })
    | ((if b1 { 1u8 } else { 0u8 }) << 1u8)
    | ((if b2 { 1u8 } else { 0u8 }) << 2u8)
    | ((if b3 { 1u8 } else { 0u8 }) << 3u8)
    | ((if b4 { 1u8 } else { 0u8 }) << 4u8)
    | ((if b5 { 1u8 } else { 0u8 }) << 5u8)
    | ((if b6 { 1u8 } else { 0u8 }) << 6u8)
    | ((if b7 { 1u8 } else { 0u8 }) << 7u8)
}

/// The unsigned 32-bit value held little-endian in the bytes `b0..b3`.
pub open spec fn u32_le(b0: u8, b1: u8, b2: u8, b3: u8) -> u32 {
    (b0 as u32) | ((b1 as u32) << 8u32) | ((b2 as u32) << 16u32) | ((b3 as u32) << 24u32)
}

/// Byte `i` (0 = least significant) of the little-endian encoding of `x`.
pub open spec fn u32_le_byte(x: u32, i: u32) -> u8 {
    ((x >> (8u32 * i)) & 0xff) as u8
}

/// The unsigned 16-bit two's-complement image of a signed 16-bit value.
pub open spec fn u16_of_i16(x: i16) -> u16 {
    if x >= 0 {
        x as u16
    } else {
        (x + 0x10000) as u16
    }
}

/// Byte `i` (0 = least significant) of the little-endian encoding of `x`.
pub open spec fn u16_le_byte(x: u16, i: u16) -> u8 {
    ((x >> (8u16 * i)) & 0xff) as u8
}

/// Tests bit `k` of the byte `b`.
pub fn get_bit(b: u8, k: u8) -> (r: bool)
    requires
        k < 8,
    ensures
        r == bit_u8(b, k),
{
    (b >> k) & 1 == 1
}

/// Packs eight flags into one byte, the first argument at bit 0.
pub fn pack_bits(
    b0: bool, b1: bool, b2: bool, b3: bool, b4: bool, b5: bool, b6: bool, b7: bool,
) -> (r: u8)
    ensures
        r == pack8(b0, b1, b2, b3, b4, b5, b6, b7),
        bit_u8(r, 0) == b0,
        bit_u8(r, 1) == b1,
        bit_u8(r, 2) == b2,
        bit_u8(r, 3) == b3,
        bit_u8(r, 4) == b4,
        bit_u8(r, 5) == b5,
        bit_u8(r, 6) == b6,
        bit_u8(r, 7) == b7,
{
    proof {
        lemma_pack8_bits(b0, b1, b2, b3, b4, b5, b6, b7);
    }
    (if b0 { 1u8 } else { 0u8 })
    | ((if b1 { 1u8 } else { 0u8 }) << 1u8)
    | ((if b2 { 1u8 } else { 0u8 }) << 2u8)
    | ((if b3 { 1u8 } else { 0u8 }) << 3u8)
    | ((if b4 { 1u8 } else { 0u8 }) << 4u8)
    | ((if b5 { 1u8 } else { 0u8 }) << 5u8)
    | ((if b6 { 1u8 } else { 0u8 }) << 6u8)
    | ((if b7 { 1u8 } else { 0u8 }) << 7u8)
}

/// Each bit of a packed byte reads back as the flag that was packed into it.
pub proof fn lemma_pack8_bits(
    b0: bool, b1: bool, b2: bool, b3: bool, b4: bool, b5: bool, b6: bool, b7: bool,
)
    by (bit_vector)
    ensures
        bit_u8(pack8(b0, b1, b2, b3, b4, b5, b6, b7), 0) == b0,
        bit_u8(pack8(b0, b1, b2, b3, b4, b5, b6, b7), 1) == b1,
        bit_u8(pack8(b0, b1, b2, b3, b4, b5, b6, b7), 2) == b2,
        bit_u8(pack8(b0, b1, b2, b3, b4, b5, b6, b7), 3) == b3,
        bit_u8(pack8(b0, b1, b2, b3, b4, b5, b6, b7), 4) == b4,
        bit_u8(pack8(b0, b1, b2, b3, b4, b5, b6, b7), 5) == b5,
        bit_u8(pack8(b0, b1, b2, b3, b4, b5, b6, b7), 6) == b6,
        bit_u8(pack8(b0, b1, b2, b3, b4, b5, b6, b7), 7) == b7,
{
}

/// Reads an unsigned 32-bit value from four little-endian bytes.
pub fn u32_from_le(b0: u8, b1: u8, b2: u8, b3: u8) -> (r: u32)
    ensures
        r == u32_le(b0, b1, b2, b3),
{
    (b0 as u32) | ((b1 as u32) << 8u32) | ((b2 as u32) << 16u32) | ((b3 as u32) << 24u32)
}

/// Splits an unsigned 32-bit value into its four little-endian bytes.
pub fn u32_to_le(x: u32) -> (r: (u8, u8, u8, u8))
    ensures
        r.0 == u32_le_byte(x, 0),
        r.1 == u32_le_byte(x, 1),
        r.2 == u32_le_byte(x, 2),
        r.3 == u32_le_byte(x, 3),
{
    proof {
        assert((x >> 0u32) & 0xff < 256 && (x >> 8u32) & 0xff < 256 && (x >> 16u32) & 0xff < 256
            && (x >> 24u32) & 0xff < 256) by (bit_vector);
    }
    (
        ((x >> 0u32) & 0xff) as u8,
        ((x >> 8u32) & 0xff) as u8,
        ((x >> 16u32) & 0xff) as u8,
        ((x >> 24u32) & 0xff) as u8,
    )
}

/// Reassembling the four little-endian bytes of a value gives the value back.
pub proof fn lemma_u32_le_round_trip(x: u32)
    by (bit_vector)
    ensures
        u32_le(u32_le_byte(x, 0), u32_le_byte(x, 1), u32_le_byte(x, 2), u32_le_byte(x, 3)) == x,
{
}

/// Computes the unsigned two's-complement image of a signed 16-bit value.
pub fn u16_from_i16(x: i16) -> (r: u16)
    ensures
        r == u16_of_i16(x),
{
    if x >= 0 {
        x as u16
    } else {
        ((x as i32) + 0x10000) as u16
    }
}

/// Splits an unsigned 16-bit value into its two little-endian bytes.
pub fn u16_to_le(x: u16) -> (r: (u8, u8))
    ensures
        r.0 == u16_le_byte(x, 0),
        r.1 == u16_le_byte(x, 1),
{
    proof {
        assert((x >> 0u16) & 0xff < 256 && (x >> 8u16) & 0xff < 256) by (bit_vector);
    }
    (((x >> 0u16) & 0xff) as u8, ((x >> 8u16) & 0xff) as u8)
}

} // verus!
