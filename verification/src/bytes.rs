//! Fixed-width integers read from and written to wire bytes.

use vstd::prelude::*;

verus! {

/// Unsigned 16-bit value of two big-endian bytes.
pub open spec fn be_u16_of(hi: u8, lo: u8) -> u16 {
    (hi as int * 256 + lo as int) as u16
}

/// Signed 16-bit value of two big-endian bytes (two's complement).
pub open spec fn be_i16_of(hi: u8, lo: u8) -> i16 {
    be_u16_of(hi, lo) as i16
}

/// Unsigned 32-bit value of four big-endian bytes.
pub open spec fn be_u32_of(b0: u8, b1: u8, b2: u8, b3: u8) -> u32 {
    (b0 as int * 0x100_0000 + b1 as int * 0x1_0000 + b2 as int * 0x100 + b3 as int) as u32
}

/// Signed 32-bit value of four big-endian bytes (two's complement).
pub open spec fn be_i32_of(b0: u8, b1: u8, b2: u8, b3: u8) -> i32 {
    be_u32_of(b0, b1, b2, b3) as i32
}

/// Read a big-endian `u16`.
pub fn be_u16(hi: u8, lo: u8) -> (r: u16)
    ensures
        r == be_u16_of(hi, lo),
        r as int == hi as int * 256 + lo as int,
{
    (hi as u16) * 256 + (lo as u16)
}

/// Read a big-endian `i16`.
pub fn be_i16(hi: u8, lo: u8) -> (r: i16)
    ensures
        r == be_i16_of(hi, lo),
{
    let u = be_u16(hi, lo);
    u as i16
}

/// Read a big-endian `u32`.
pub fn be_u32(b0: u8, b1: u8, b2: u8, b3: u8) -> (r: u32)
    ensures
        r == be_u32_of(b0, b1, b2, b3),
        r as int == b0 as int * 0x100_0000 + b1 as int * 0x1_0000 + b2 as int * 0x100 + b3 as int,
{
    (b0 as u32) * 0x100_0000 + (b1 as u32) * 0x1_0000 + (b2 as u32) * 0x100 + (b3 as u32)
}

/// Read a big-endian `i32`.
pub fn be_i32(b0: u8, b1: u8, b2: u8, b3: u8) -> (r: i32)
    ensures
        r == be_i32_of(b0, b1, b2, b3),
{
    let u = be_u32(b0, b1, b2, b3);
    u as i32
}

/// Byte `k` (0 = most significant) of the big-endian encoding of `x`.
pub open spec fn be_u32_byte(x: u32, k: int) -> u8 {
    if k == 0 {
        (x >> 24u32) as u8
    } else if k == 1 {
        (x >> 16u32) as u8
    } else if k == 2 {
        (x >> 8u32) as u8
    } else {
        x as u8
    }
}

/// Reading back the big-endian bytes of `x` gives `x`.
pub proof fn lemma_be_u32_round_trip(x: u32)
    ensures
        be_u32_of(be_u32_byte(x, 0), be_u32_byte(x, 1), be_u32_byte(x, 2), be_u32_byte(x, 3))
            == x,
{
    let b0 = (x >> 24u32) as u8;
    let b1 = (x >> 16u32) as u8;
    let b2 = (x >> 8u32) as u8;
    let b3 = x as u8;
    assert(b0 as u32 * 0x100_0000u32 + b1 as u32 * 0x1_0000u32 + b2 as u32 * 0x100u32 + b3 as u32
        == x) by (bit_vector)
        requires
            b0 == (x >> 24u32) as u8,
            b1 == (x >> 16u32) as u8,
            b2 == (x >> 8u32) as u8,
            b3 == x as u8,
    ;
}

/// Byte `k` (0 = least significant) of the little-endian encoding of `x`.
pub open spec fn le_u32_byte(x: u32, k: int) -> u8 {
    be_u32_byte(x, 3 - k)
}

/// Unsigned 32-bit value of four little-endian bytes.
pub open spec fn le_u32_of(b0: u8, b1: u8, b2: u8, b3: u8) -> u32 {
    be_u32_of(b3, b2, b1, b0)
}

/// Read a little-endian `u32`.
pub fn le_u32(b0: u8, b1: u8, b2: u8, b3: u8) -> (r: u32)
    ensures
        r == le_u32_of(b0, b1, b2, b3),
{
    be_u32(b3, b2, b1, b0)
}

/// Signed 16-bit value of two little-endian bytes.
pub open spec fn le_i16_of(lo: u8, hi: u8) -> i16 {
    be_i16_of(hi, lo)
}

/// Read a little-endian `i16`.
pub fn le_i16(lo: u8, hi: u8) -> (r: i16)
    ensures
        r == le_i16_of(lo, hi),
{
    be_i16(hi, lo)
}


/// Two big-endian bytes read as a signed value are their unsigned value,
/// less 2^16 when the sign bit of the high byte is set.
pub proof fn lemma_be_i16_value(hi: u8, lo: u8)
    ensures
        be_i16_of(hi, lo) as int == hi as int * 256 + lo as int - (if hi >= 128 {
            0x1_0000int
        } else {
            0int
        }),
{
    let u: u16 = be_u16_of(hi, lo);
    assert(u as int == hi as int * 256 + lo as int);
    assert(hi >= 128 <==> u >= 0x8000) by {
        assert(u as int == hi as int * 256 + lo as int);
    }
    assert((u as i16) as int == if u >= 0x8000u16 {
        u as int - 0x1_0000
    } else {
        u as int
    }) by (bit_vector);
}

/// Four big-endian bytes read as a signed value are their unsigned value,
/// less 2^32 when the sign bit of the first byte is set.
pub proof fn lemma_be_i32_value(b0: u8, b1: u8, b2: u8, b3: u8)
    ensures
        be_i32_of(b0, b1, b2, b3) as int == b0 as int * 0x100_0000 + b1 as int * 0x1_0000 + b2 as int
            * 0x100 + b3 as int - (if b0 >= 128 {
            0x1_0000_0000int
        } else {
            0int
        }),
{
    let u: u32 = be_u32_of(b0, b1, b2, b3);
    assert(u as int == b0 as int * 0x100_0000 + b1 as int * 0x1_0000 + b2 as int * 0x100
        + b3 as int);
    assert((u as i32) as int == if u >= 0x8000_0000u32 {
        u as int - 0x1_0000_0000
    } else {
        u as int
    }) by (bit_vector);
}
} // verus!
