//! Little-endian integers from single bytes, and byte ranges of fixed width.

use std::ops::Range;
use vstd::prelude::*;

verus! {

/// The unsigned 16-bit value whose low byte is `a` and whose high byte is `b`.
pub open spec fn le_u16(a: u8, b: u8) -> int {
    a as int + 256 * (b as int)
}

/// The unsigned 32-bit value of four bytes, lowest byte first.
pub open spec fn le_u32(a: u8, b: u8, c: u8, d: u8) -> int {
    a as int + 256 * (b as int) + 65536 * (c as int) + 16777216 * (d as int)
}

/// The signed value that the 16 bits of `v` stand for in two's complement.
pub open spec fn signed16(v: int) -> int {
    if v < 32768 {
        v
    } else {
        v - 65536
    }
}

/// The signed 16-bit value whose low byte is `a` and whose high byte is `b`.
pub open spec fn le_i16(a: u8, b: u8) -> int {
    signed16(le_u16(a, b))
}

/// The range of `width` positions that begins at `start`.
pub fn packet_range(start: usize, width: usize) -> (r: Range<usize>)
    requires
        start + width <= usize::MAX,
    ensures
        r.start == start,
        r.end == start + width,
{
    start..(start + width)
}

/// Two bytes, lowest first, as an unsigned 16-bit integer.
pub fn u8_to_u16(a: u8, b: u8) -> (r: u16)
    ensures
        r == le_u16(a, b),
{
    assert(((a as u16) << 0) == a as u16) by (bit_vector);
    assert(((b as u16) << 8) == (b as u16) * 256) by (bit_vector);
    ((a as u16) << 0) + ((b as u16) << 8)
}

/// Four bytes, lowest first, as an unsigned 32-bit integer.
pub fn u8_to_u32(a: u8, b: u8, c: u8, d: u8) -> (r: u32)
    ensures
        r == le_u32(a, b, c, d),
{
    assert(((a as u32) << 0) == a as u32) by (bit_vector);
    assert(((b as u32) << 8) == (b as u32) * 256) by (bit_vector);
    assert(((c as u32) << 16) == (c as u32) * 65536) by (bit_vector);
    assert(((d as u32) << 24) == (d as u32) * 16777216) by (bit_vector);
    ((a as u32) << 0) + ((b as u32) << 8) + ((c as u32) << 16) + ((d as u32) << 24)
}

/// Four bytes, lowest first, as an index.
pub fn u8_to_usize(a: u8, b: u8, c: u8, d: u8) -> (r: usize)
    ensures
        r == le_u32(a, b, c, d),
{
    u8_to_u32(a, b, c, d) as usize
}

/// Two bytes, lowest first, as a signed 16-bit integer in two's complement.
pub fn u8_to_i16(a: u8, b: u8) -> (r: i16)
    ensures
        r == le_i16(a, b),
{
    let v: u16 = u8_to_u16(a, b);
    assert(v as i16 == (if v < 32768 { v as int } else { v as int - 65536 })) by (bit_vector);
    v as i16
}

} // verus!
