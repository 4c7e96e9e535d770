//! Byte buffers.

use vstd::prelude::*;

verus! {

/// Appends the bytes of `source` to `target`.
pub fn append(target: &mut Vec<u8>, source: &[u8])
    ensures
        final(target)@ == old(target)@ + source@,
{
    target.extend_from_slice(source);
    assert(target@ =~= old(target)@ + source@);
}

/// Copies `N` bytes into an array.
pub fn to_array<const N: usize>(bytes: &[u8]) -> (block: [u8; N])
    requires
        bytes@.len() == N,
    ensures
        block@ == bytes@,
{
    let mut block: [u8; N] = [0u8; N];
    let mut i: usize = 0;
    while i < N
        invariant
            i <= N,
            bytes@.len() == N,
            forall|j: int| 0 <= j < i ==> block@[j] == bytes@[j],
        decreases N - i,
    {
        block[i] = bytes[i];
        i += 1;
    }
    assert(block@ =~= bytes@);
    block
}

} // verus!
