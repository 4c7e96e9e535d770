//! A cursor over bytes, for reading fixed-layout records.

use crate::endian::be16;
use crate::endian::be32;
use crate::endian::u16_from_be;
use crate::endian::u32_from_be;
use crate::error::ProtocolError;
use vstd::prelude::*;

verus! {

/// Reads values off a byte buffer, each read starting where the last one
/// ended. A read that asks for more bytes than remain fails and leaves the
/// cursor where it was.
pub struct ByteArrayParser<'a> {
    offset: usize,
    buffer: &'a [u8],
}

impl<'a> ByteArrayParser<'a> {
    /// The cursor stands within the buffer or at its end.
    #[verifier::type_invariant]
    closed spec fn well_formed(self) -> bool {
        self.offset <= self.buffer@.len()
    }

    /// The bytes that the parser reads from.
    pub closed spec fn source(&self) -> Seq<u8> {
        self.buffer@
    }

    /// The number of bytes read so far.
    pub closed spec fn position(&self) -> nat {
        self.offset as nat
    }

    /// The bytes not yet read.
    pub open spec fn remaining(&self) -> Seq<u8> {
        self.source().skip(self.position() as int)
    }

    /// Whether `size` more bytes can be read.
    pub open spec fn holds(&self, size: nat) -> bool {
        self.position() + size <= self.source().len()
    }

    /// The `size` bytes that the next read takes.
    pub open spec fn next(&self, size: nat) -> Seq<u8>
        recommends
            self.holds(size),
    {
        self.source().subrange(self.position() as int, (self.position() + size) as int)
    }

    /// Whether a read of `size` bytes took the parser from `before` to
    /// `after`: it succeeded where the bytes were there and failed where
    /// they were not, it moved the cursor behind the bytes it took, and it
    /// left the source alone.
    pub open spec fn took(before: &Self, after: &Self, size: nat, taken: bool) -> bool {
        &&& after.source() == before.source()
        &&& taken == before.holds(size)
        &&& after.position() == if taken {
            before.position() + size
        } else {
            before.position()
        }
    }

    /// A parser at the start of `buffer`.
    pub fn new(buffer: &'a [u8]) -> (parser: ByteArrayParser<'a>)
        ensures
            parser.source() == buffer@,
            parser.position() == 0,
    {
        ByteArrayParser { offset: 0, buffer }
    }

    /// The number of bytes not yet read.
    pub fn available(&self) -> (count: usize)
        ensures
            count == self.source().len() - self.position(),
    {
        proof {
            use_type_invariant(self);
        }
        self.buffer.len() - self.offset
    }

    /// Takes one byte.
    pub fn take_u8(&mut self) -> (result: Result<u8, ProtocolError>)
        ensures
            Self::took(old(self), final(self), 1, result is Ok),
            match result {
                Ok(value) => value == old(self).next(1)[0],
                Err(error) => error == ProtocolError::OutOfBounds,
            },
    {
        let bytes = self.take_bytes(1)?;
        Ok(bytes[0])
    }

    /// Takes two bytes and reads them as a big-endian 16-bit value.
    pub fn take_u16(&mut self) -> (result: Result<u16, ProtocolError>)
        ensures
            Self::took(old(self), final(self), 2, result is Ok),
            match result {
                Ok(value) => value == be16(old(self).next(2)[0], old(self).next(2)[1]),
                Err(error) => error == ProtocolError::OutOfBounds,
            },
    {
        let bytes = self.take_bytes(2)?;
        Ok(u16_from_be(bytes[0], bytes[1]))
    }

    /// Takes four bytes and reads them as a big-endian 32-bit value.
    pub fn take_u32(&mut self) -> (result: Result<u32, ProtocolError>)
        ensures
            Self::took(old(self), final(self), 4, result is Ok),
            match result {
                Ok(value) => value == be32(
                    old(self).next(4)[0],
                    old(self).next(4)[1],
                    old(self).next(4)[2],
                    old(self).next(4)[3],
                ),
                Err(error) => error == ProtocolError::OutOfBounds,
            },
    {
        let bytes = self.take_bytes(4)?;
        Ok(u32_from_be(bytes[0], bytes[1], bytes[2], bytes[3]))
    }

    /// Takes the next `size` bytes.
    pub fn take_bytes(&mut self, size: usize) -> (result: Result<&'a [u8], ProtocolError>)
        ensures
            Self::took(old(self), final(self), size as nat, result is Ok),
            match result {
                Ok(bytes) => bytes@ == old(self).next(size as nat),
                Err(error) => error == ProtocolError::OutOfBounds,
            },
    {
        proof {
            use_type_invariant(&*self);
        }
        if size > self.buffer.len() - self.offset {
            return Err(ProtocolError::OutOfBounds);
        }
        let start: usize = self.offset;
        let bytes = vstd::slice::slice_subrange(self.buffer, start, start + size);
        self.offset = start + size;
        Ok(bytes)
    }
}

} // verus!
