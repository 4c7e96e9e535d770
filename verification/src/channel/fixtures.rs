//! A channel in memory, for tests.

use crate::bytes::append;
use crate::channel::Channel;
use crate::channel::Failure;
use crate::channel::Operation;
use crate::channel::Record;
use crate::channel::TransportError;
use crate::sealed::Sealed;
use vstd::prelude::*;

verus! {

/// What the channel says when it is asked for more bytes than it holds.
pub const END_OF_INPUT: &'static str = "failed to fill whole buffer";

/// A channel that reads from one buffer and writes to another.
///
/// A test fills the read buffer with the bytes the instrument would send,
/// runs the protocol, and looks at what arrived in the write buffer. The
/// write buffer is the channel's record of what was sent: what a call
/// writes, by the record, is what it appends to the buffer.
pub struct MockChannel {
    /// The bytes still to be read.
    pub read_buffer: Vec<u8>,
    /// The bytes written so far.
    pub write_buffer: Vec<u8>,
    /// The bytes read so far.
    pub received: Ghost<Seq<u8>>,
    /// The reads that failed for want of bytes.
    pub failures: Ghost<Seq<Failure>>,
}

impl MockChannel {
    /// The bytes still to be read.
    pub open spec fn pending(&self) -> Seq<u8> {
        self.read_buffer@
    }

    /// The bytes written so far.
    pub open spec fn written(&self) -> Seq<u8> {
        self.write_buffer@
    }

    /// A channel with nothing to read and nothing written.
    pub fn new() -> (channel: MockChannel)
        ensures
            channel.pending() == Seq::<u8>::empty(),
            channel.written() == Seq::<u8>::empty(),
            channel.record() == Record::empty(),
    {
        MockChannel {
            read_buffer: Vec::new(),
            write_buffer: Vec::new(),
            received: Ghost(Seq::empty()),
            failures: Ghost(Seq::empty()),
        }
    }

    /// Queues `response` behind the bytes still to be read.
    pub fn add_response(&mut self, response: &[u8])
        ensures
            final(self).pending() == old(self).pending() + response@,
            final(self).written() == old(self).written(),
            final(self).record() == old(self).record(),
    {
        append(&mut self.read_buffer, response);
    }
}

impl Sealed for MockChannel {
}

impl Channel for MockChannel {
    /// The bytes read and the failures met are kept beside the buffers;
    /// the bytes sent are those in the write buffer.
    open spec fn record(&self) -> Record {
        Record { received: self.received@, sent: self.write_buffer@, failures: self.failures@ }
    }

    /// Takes the first `count` bytes off the read buffer; fails, and takes
    /// nothing, where the buffer holds fewer.
    fn read_exact(&mut self, count: usize) -> (result: Result<Vec<u8>, TransportError>)
        ensures
            match result {
                Ok(bytes) => count <= old(self).pending().len()
                    && bytes@ == old(self).pending().take(count as int)
                    && final(self).pending() == old(self).pending().skip(count as int),
                Err(failure) => count > old(self).pending().len() && failure@ == END_OF_INPUT@
                    && final(self).pending() == old(self).pending(),
            },
    {
        let result = if self.read_buffer.len() < count {
            Err(TransportError::new(END_OF_INPUT))
        } else {
            let mut bytes = self.read_buffer.split_off(count);
            std::mem::swap(&mut self.read_buffer, &mut bytes);
            Ok(bytes)
        };
        proof {
            let after = old(self).record().after_read(result);
            self.received@ = after.received;
            self.failures@ = after.failures;
        }
        result
    }

    /// Appends `bytes` to the write buffer; never fails.
    fn write_all(&mut self, bytes: &[u8]) -> (result: Result<(), TransportError>)
        ensures
            result is Ok,
            final(self).pending() == old(self).pending(),
    {
        append(&mut self.write_buffer, bytes);
        Ok(())
    }
}

} // verus!
