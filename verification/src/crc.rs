//! The 16-bit checksum that closes every frame.

use vstd::prelude::*;

verus! {

/// Folds one more byte into a checksum accumulator.
///
/// The accumulator is byte-swapped, the new byte is mixed into its low half,
/// and three shifted copies of the low half are folded back in. Every
/// intermediate value is a 16-bit word: bits shifted past bit 15 are lost.
pub open spec fn checksum_step(acc: u16, byte: u8) -> u16 {
    let swapped: u16 = (acc << 8) | (acc >> 8);
    let mixed: u16 = swapped ^ (byte as u16);
    let first: u16 = mixed ^ ((mixed & 0xff) >> 4);
    let second: u16 = first ^ ((first << 8) << 4);
    second ^ (((second & 0xff) << 4) << 1)
}

/// The checksum of a byte sequence.
///
/// The first byte seeds the accumulator; every later byte is folded in with
/// [`checksum_step`], in order. The checksum of the empty sequence is never
/// asked for by the protocol; it is fixed at zero to keep the function total.
pub open spec fn checksum(bytes: Seq<u8>) -> u16
    decreases bytes.len(),
{
    if bytes.len() == 0 {
        0
    } else if bytes.len() == 1 {
        bytes[0] as u16
    } else {
        checksum_step(checksum(bytes.drop_last()), bytes.last())
    }
}

/// Appending a byte to a non-empty sequence advances its checksum by one step.
pub proof fn lemma_checksum_push(bytes: Seq<u8>, byte: u8)
    requires
        bytes.len() > 0,
    ensures
        checksum(bytes.push(byte)) == checksum_step(checksum(bytes), byte),
{
    assert(bytes.push(byte).drop_last() =~= bytes);
}

/// The checksum is a function of the bytes alone: equal sequences have equal
/// checksums, however they were built.
pub proof fn lemma_checksum_deterministic(a: Seq<u8>, b: Seq<u8>)
    requires
        a.len() == b.len(),
        forall|i: int| 0 <= i < a.len() ==> a[i] == b[i],
    ensures
        checksum(a) == checksum(b),
{
    assert(a =~= b);
}

/// Folding two different bytes into one accumulator gives two different
/// results.
pub proof fn lemma_step_tells_bytes_apart(acc: u16, a: u8, b: u8)
    by (bit_vector)
    requires
        a != b,
    ensures
        checksum_step(acc, a) != checksum_step(acc, b),
{
}

/// Folding one byte into two different accumulators gives two different
/// results.
pub proof fn lemma_step_tells_accumulators_apart(a: u16, b: u16, byte: u8)
    by (bit_vector)
    requires
        a != b,
    ensures
        checksum_step(a, byte) != checksum_step(b, byte),
{
}

/// The checksum detects every change of a single byte: replacing the byte at
/// any position by a different one changes the checksum.
pub proof fn lemma_checksum_tamper(bytes: Seq<u8>, index: int, byte: u8)
    requires
        0 <= index < bytes.len(),
        byte != bytes[index],
    ensures
        checksum(bytes.update(index, byte)) != checksum(bytes),
    decreases bytes.len(),
{
    let changed = bytes.update(index, byte);
    if bytes.len() > 1 {
        let front = bytes.drop_last();
        if index == bytes.len() - 1 {
            assert(changed.drop_last() =~= front);
            lemma_step_tells_bytes_apart(checksum(front), byte, bytes.last());
        } else {
            assert(changed.drop_last() =~= front.update(index, byte));
            lemma_checksum_tamper(front, index, byte);
            lemma_step_tells_accumulators_apart(
                checksum(front.update(index, byte)),
                checksum(front),
                bytes.last(),
            );
        }
    }
}

/// Computes the checksum of `raw`, which must hold at least one byte.
pub fn crc16(raw: &[u8]) -> (crc: u16)
    requires
        raw@.len() > 0,
    ensures
        crc == checksum(raw@),
{
    let mut crc: u16 = raw[0] as u16;
    assert(raw@.take(1) =~= seq![raw@[0]]);
    let mut i: usize = 1;
    while i < raw.len()
        invariant
            1 <= i <= raw@.len(),
            crc == checksum(raw@.take(i as int)),
        decreases raw@.len() - i,
    {
        let byte: u8 = raw[i];
        proof {
            assert(raw@.take(i + 1) =~= raw@.take(i as int).push(byte));
            lemma_checksum_push(raw@.take(i as int), byte);
        }
        crc = (crc << 8) | (crc >> 8);
        crc ^= byte as u16;
        crc ^= (crc & 0xff) >> 4;
        crc ^= (crc << 8) << 4;
        crc ^= ((crc & 0xff) << 4) << 1;
        i += 1;
    }
    assert(raw@.take(i as int) =~= raw@);
    crc
}

} // verus!
