//! Big-endian integers as byte sequences.

use vstd::prelude::*;

verus! {

/// Big-endian bytes of a 16-bit value.
pub open spec fn be16(value: u16) -> Seq<u8> {
    seq![(value / 0x100) as u8, (value % 0x100) as u8]
}

/// The 16-bit value that two big-endian bytes spell.
pub open spec fn from_be16(hi: u8, lo: u8) -> u16 {
    (hi as int * 0x100 + lo as int) as u16
}

/// Big-endian bytes of a 32-bit value.
pub open spec fn be32(value: u32) -> Seq<u8> {
    seq![
        (value / 0x100_0000) as u8,
        (value / 0x1_0000 % 0x100) as u8,
        (value / 0x100 % 0x100) as u8,
        (value % 0x100) as u8,
    ]
}

/// Splits a 16-bit value into its big-endian bytes.
pub fn u16_to_be_bytes(value: u16) -> (bytes: Vec<u8>)
    ensures
        bytes@ == be16(value),
{
    let hi: u8 = (value >> 8) as u8;
    let lo: u8 = (value & 0xff) as u8;
    assert(hi == value / 0x100 && lo == value % 0x100) by (bit_vector)
        requires
            hi == (value >> 8) as u8,
            lo == (value & 0xff) as u8,
    ;
    let mut bytes: Vec<u8> = Vec::new();
    bytes.push(hi);
    bytes.push(lo);
    bytes
}

/// Joins two big-endian bytes into a 16-bit value.
pub fn u16_from_be_bytes(hi: u8, lo: u8) -> (value: u16)
    ensures
        value == from_be16(hi, lo),
        be16(value) == seq![hi, lo],
{
    let value: u16 = (hi as u16) * 0x100 + (lo as u16);
    value
}

/// Reading back the bytes of a 16-bit value gives the value.
pub proof fn lemma_be16_round_trip(value: u16)
    ensures
        be16(value).len() == 2,
        from_be16(be16(value)[0], be16(value)[1]) == value,
{
}

/// The 32-bit value that four big-endian bytes spell.
pub open spec fn from_be32(b0: u8, b1: u8, b2: u8, b3: u8) -> u32 {
    (b0 as int * 0x100_0000 + b1 as int * 0x1_0000 + b2 as int * 0x100 + b3 as int) as u32
}

/// Splits a 32-bit value into its big-endian bytes.
pub fn u32_to_be_bytes(value: u32) -> (bytes: Vec<u8>)
    ensures
        bytes@ == be32(value),
{
    let b0: u8 = (value >> 24) as u8;
    let b1: u8 = ((value >> 16) & 0xff) as u8;
    let b2: u8 = ((value >> 8) & 0xff) as u8;
    let b3: u8 = (value & 0xff) as u8;
    assert(b0 == value / 0x100_0000 && b1 == value / 0x1_0000 % 0x100 && b2 == value / 0x100
        % 0x100 && b3 == value % 0x100) by (bit_vector)
        requires
            b0 == (value >> 24) as u8,
            b1 == ((value >> 16) & 0xff) as u8,
            b2 == ((value >> 8) & 0xff) as u8,
            b3 == (value & 0xff) as u8,
    ;
    let mut bytes: Vec<u8> = Vec::new();
    bytes.push(b0);
    bytes.push(b1);
    bytes.push(b2);
    bytes.push(b3);
    bytes
}

/// Reading back the bytes of a 32-bit value gives the value.
pub proof fn lemma_be32_round_trip(value: u32)
    ensures
        be32(value).len() == 4,
        from_be32(be32(value)[0], be32(value)[1], be32(value)[2], be32(value)[3]) == value,
{
}

} // verus!
