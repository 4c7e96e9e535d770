//! Fixed-width integers as they appear on the wire and in flash.
//!
//! The protocol writes multi-byte integers most significant byte first; the
//! program header in flash is the one record that stores them least
//! significant byte first.

use vstd::prelude::*;

verus! {

/// The 16-bit value whose big-endian bytes are `b0`, `b1`.
pub open spec fn be16(b0: u8, b1: u8) -> u16 {
    (b0 as int * 0x100 + b1 as int) as u16
}

/// The 16-bit value whose little-endian bytes are `b0`, `b1`.
pub open spec fn le16(b0: u8, b1: u8) -> u16 {
    be16(b1, b0)
}

/// The 32-bit value whose big-endian bytes are `b0` to `b3`.
pub open spec fn be32(b0: u8, b1: u8, b2: u8, b3: u8) -> u32 {
    (b0 as int * 0x100_0000 + b1 as int * 0x1_0000 + b2 as int * 0x100 + b3 as int) as u32
}

/// The 64-bit value whose big-endian bytes are the eight bytes of `bytes`.
pub open spec fn be64(bytes: Seq<u8>) -> u64
    recommends
        bytes.len() == 8,
{
    (be32(bytes[0], bytes[1], bytes[2], bytes[3]) as int * 0x1_0000_0000 + be32(
        bytes[4],
        bytes[5],
        bytes[6],
        bytes[7],
    ) as int) as u64
}

/// The most significant byte of a 16-bit value.
pub open spec fn high_byte(value: u16) -> u8 {
    (value / 0x100) as u8
}

/// The least significant byte of a 16-bit value.
pub open spec fn low_byte(value: u16) -> u8 {
    (value % 0x100) as u8
}

/// The two big-endian bytes of a 16-bit value.
pub open spec fn be16_bytes(value: u16) -> Seq<u8> {
    seq![high_byte(value), low_byte(value)]
}

/// Joins two big-endian bytes into a 16-bit value.
pub fn u16_from_be(b0: u8, b1: u8) -> (value: u16)
    ensures
        value == be16(b0, b1),
{
    (b0 as u16) * 0x100 + (b1 as u16)
}

/// Joins two little-endian bytes into a 16-bit value.
pub fn u16_from_le(b0: u8, b1: u8) -> (value: u16)
    ensures
        value == le16(b0, b1),
{
    (b1 as u16) * 0x100 + (b0 as u16)
}

/// Joins four big-endian bytes into a 32-bit value.
pub fn u32_from_be(b0: u8, b1: u8, b2: u8, b3: u8) -> (value: u32)
    ensures
        value == be32(b0, b1, b2, b3),
{
    (b0 as u32) * 0x100_0000 + (b1 as u32) * 0x1_0000 + (b2 as u32) * 0x100 + (b3 as u32)
}

/// Joins the eight big-endian bytes of `bytes` into a 64-bit value.
pub fn u64_from_be(bytes: &[u8]) -> (value: u64)
    requires
        bytes@.len() == 8,
    ensures
        value == be64(bytes@),
{
    let high: u32 = u32_from_be(bytes[0], bytes[1], bytes[2], bytes[3]);
    let low: u32 = u32_from_be(bytes[4], bytes[5], bytes[6], bytes[7]);
    (high as u64) * 0x1_0000_0000 + (low as u64)
}

/// Splits a 16-bit value into its big-endian bytes.
pub fn u16_to_be(value: u16) -> (bytes: (u8, u8))
    ensures
        bytes.0 == high_byte(value),
        bytes.1 == low_byte(value),
{
    ((value / 0x100) as u8, (value % 0x100) as u8)
}

} // verus!
