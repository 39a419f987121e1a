//! Big-endian integers.

use vstd::prelude::*;

verus! {

/// The number whose big-endian bytes are `hi`, `lo`.
pub open spec fn be16(hi: u8, lo: u8) -> u16 {
    (hi * 0x100 + lo) as u16
}

/// The number whose big-endian bytes are `a`, `b`, `c`, `d`.
pub open spec fn be32(a: u8, b: u8, c: u8, d: u8) -> u32 {
    (a * 0x100_0000 + b * 0x1_0000 + c * 0x100 + d) as u32
}

/// The big-endian bytes of a 16-bit number.
pub open spec fn be16_bytes(value: u16) -> Seq<u8> {
    seq![(value / 0x100) as u8, (value % 0x100) as u8]
}

/// The big-endian bytes of a 32-bit number.
pub open spec fn be32_bytes(value: u32) -> Seq<u8> {
    seq![
        (value / 0x100_0000) as u8,
        (value / 0x1_0000 % 0x100) as u8,
        (value / 0x100 % 0x100) as u8,
        (value % 0x100) as u8,
    ]
}

/// Reads a 16-bit big-endian number.
pub fn read_be16(hi: u8, lo: u8) -> (value: u16)
    ensures
        value == be16(hi, lo),
{
    hi as u16 * 0x100 + lo as u16
}

/// Reads a 32-bit big-endian number.
pub fn read_be32(a: u8, b: u8, c: u8, d: u8) -> (value: u32)
    ensures
        value == be32(a, b, c, d),
{
    a as u32 * 0x100_0000 + b as u32 * 0x1_0000 + c as u32 * 0x100 + d as u32
}

/// The big-endian bytes of a 16-bit number.
pub fn write_be16(value: u16) -> (bytes: [u8; 2])
    ensures
        bytes@ == be16_bytes(value),
{
    [(value / 0x100) as u8, (value % 0x100) as u8]
}

/// The big-endian bytes of a 32-bit number.
pub fn write_be32(value: u32) -> (bytes: [u8; 4])
    ensures
        bytes@ == be32_bytes(value),
{
    [
        (value / 0x100_0000) as u8,
        (value / 0x1_0000 % 0x100) as u8,
        (value / 0x100 % 0x100) as u8,
        (value % 0x100) as u8,
    ]
}

/// Reading the bytes of a 16-bit number gives the number back.
pub proof fn be16_round_trip(value: u16)
    ensures
        be16(be16_bytes(value)[0], be16_bytes(value)[1]) == value,
{
}

/// Reading the bytes of a 32-bit number gives the number back.
pub proof fn be32_round_trip(value: u32)
    ensures
        ({
            let bytes = be32_bytes(value);
            be32(bytes[0], bytes[1], bytes[2], bytes[3]) == value
        }),
{
    let high = value / 0x1_0000;
    let middle = value / 0x100;
    assert(value / 0x100_0000 == high / 0x100);
    assert(high == middle / 0x100);
    assert(high == high / 0x100 * 0x100 + high % 0x100);
    assert(middle == high * 0x100 + middle % 0x100);
    assert(value == middle * 0x100 + value % 0x100);
}

/// Two bytes are the bytes of the number they denote.
pub proof fn be16_bytes_round_trip(hi: u8, lo: u8)
    ensures
        be16_bytes(be16(hi, lo)) == seq![hi, lo],
{
}

/// Four bytes are the bytes of the number they denote.
pub proof fn be32_bytes_round_trip(a: u8, b: u8, c: u8, d: u8)
    ensures
        be32_bytes(be32(a, b, c, d)) == seq![a, b, c, d],
{
    let value = a * 0x100_0000 + b * 0x1_0000 + c * 0x100 + d;
    assert(value / 0x100_0000 == a);
    assert(value / 0x1_0000 == a * 0x100 + b);
    assert(value / 0x100 == a * 0x1_0000 + b * 0x100 + c);
    assert((a * 0x100 + b) % 0x100 == b);
    assert((a * 0x1_0000 + b * 0x100 + c) % 0x100 == c);
    assert(value % 0x100 == d);
    assert(be32(a, b, c, d) == value);
}

/// The first byte weighs most: two-byte numbers are ordered as their bytes are read.
pub proof fn be16_order(hi: u8, lo: u8, other_hi: u8, other_lo: u8)
    requires
        hi < other_hi || (hi == other_hi && lo < other_lo),
    ensures
        be16(hi, lo) < be16(other_hi, other_lo),
{
}

/// The first byte weighs most: four-byte numbers are ordered as their bytes are read.
pub proof fn be32_order(a: u8, b: u8, c: u8, d: u8, a2: u8, b2: u8, c2: u8, d2: u8)
    requires
        a < a2 || (a == a2 && (b < b2 || (b == b2 && (c < c2 || (c == c2 && d < d2))))),
    ensures
        be32(a, b, c, d) < be32(a2, b2, c2, d2),
{
}

/// The last byte counts in ones.
pub proof fn be32_counts(a: u8, b: u8, c: u8, d: u8)
    requires
        d < 255,
    ensures
        be32(a, b, c, (d + 1) as u8) == be32(a, b, c, d) + 1,
        be32(0, 0, 0, d) == d,
        be16(c, (d + 1) as u8) == be16(c, d) + 1,
        be16(0, d) == d,
{
}

} // verus!
