//! Little-endian 16-bit fields as PICO-8 stores them in memory.

use vstd::prelude::*;

verus! {

/// The unsigned value of two bytes in little-endian order.
pub open spec fn le_u16(lo: u8, hi: u8) -> int {
    lo + 256 * hi
}

/// The two's complement value of two bytes in little-endian order.
pub open spec fn le_i16(lo: u8, hi: u8) -> int {
    if le_u16(lo, hi) >= 0x8000 {
        le_u16(lo, hi) - 0x10000
    } else {
        le_u16(lo, hi)
    }
}

/// The low byte of the two's complement encoding of `x`.
pub open spec fn i16_lo(x: i16) -> u8 {
    ((if x < 0 { x + 0x10000 } else { x as int }) % 256) as u8
}

/// The high byte of the two's complement encoding of `x`.
pub open spec fn i16_hi(x: i16) -> u8 {
    ((if x < 0 { x + 0x10000 } else { x as int }) / 256) as u8
}

/// The two bytes of `x` in little-endian order.
pub open spec fn i16_le_bytes(x: i16) -> Seq<u8> {
    seq![i16_lo(x), i16_hi(x)]
}

/// Decodes a little-endian `i16` from two bytes.
pub fn i16_from_le(lo: u8, hi: u8) -> (r: i16)
    ensures
        r == le_i16(lo, hi),
{
    let u: u32 = lo as u32 + 256 * (hi as u32);
    if u >= 0x8000 {
        (u as i32 - 0x10000) as i16
    } else {
        u as i16
    }
}

/// Encodes an `i16` as two bytes in little-endian order.
pub fn i16_to_le(x: i16) -> (r: (u8, u8))
    ensures
        r.0 == i16_lo(x),
        r.1 == i16_hi(x),
{
    let u: u32 = if x < 0 { (x as i32 + 0x10000) as u32 } else { x as u32 };
    ((u % 256) as u8, (u / 256) as u8)
}

/// The two bytes of an `i16` are its two's complement, low byte first, and
/// two bytes decode to the `i16` whose two's complement they are.
pub proof fn lemma_i16_le_value(x: i16, lo: u8, hi: u8)
    ensures
        i16_lo(x) + 256 * i16_hi(x) == (x + 0x10000) % 0x10000,
        (le_i16(lo, hi) + 0x10000) % 0x10000 == lo + 256 * hi,
        -0x8000 <= le_i16(lo, hi) < 0x8000,
{
}

/// Decoding the encoding of an `i16` gives it back.
pub proof fn lemma_i16_le_roundtrip(x: i16)
    ensures
        le_i16(i16_lo(x), i16_hi(x)) == x,
{
}

/// Encoding the value of two bytes gives the same two bytes back.
pub proof fn lemma_le_i16_roundtrip(lo: u8, hi: u8)
    ensures
        i16_lo(le_i16(lo, hi) as i16) == lo,
        i16_hi(le_i16(lo, hi) as i16) == hi,
{
}

} // verus!
