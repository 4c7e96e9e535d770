//! The byte channel between host and instrument.
//!
//! The protocol needs two things of a transport: to read an exact number of
//! bytes, blocking until they are there, and to write a run of bytes whole.
//! [`Transport`] is that capability; a serial port has it.
//!
//! To state what the protocol does, a [`Channel`] carries a [`Record`], known
//! to proofs only: the bytes it has handed to its reader, the bytes its
//! writer has got across, and the failures it has met, each with the
//! operation that met it. [`Recorded`] makes a channel of any transport by
//! keeping the record as the bytes go by; [`fixtures::MockChannel`] is a
//! channel in memory, for tests.

use crate::sealed::Sealed;
use vstd::prelude::*;
use vstd::string::StringExecFns;

pub mod fixtures;

verus! {

/// The failure of a transport, with the transport's own words for it.
#[derive(Debug, Clone, PartialEq, Eq)]
pub struct TransportError {
    message: String,
}

impl View for TransportError {
    type V = Seq<char>;

    closed spec fn view(&self) -> Seq<char> {
        self.message@
    }
}

impl TransportError {
    /// A failure with the given message.
    pub fn new(message: &str) -> (error: TransportError)
        ensures
            error@ == message@,
    {
        TransportError { message: String::from_str(message) }
    }

    /// The transport's words for the failure.
    pub fn message(&self) -> (message: &str)
        ensures
            message@ == self@,
    {
        self.message.as_str()
    }

    /// The message as an owned string.
    pub fn to_string(&self) -> (text: String)
        ensures
            text@ == self@,
    {
        self.message.clone()
    }
}

/// What a channel does with its transport.
#[derive(Debug, Clone, Copy, PartialEq, Eq, Structural)]
pub enum Operation {
    /// It reads from it.
    Read,
    /// It writes to it.
    Write,
}

/// A failure of the transport, and what the channel was doing when it met
/// it.
pub struct Failure {
    /// What the channel was doing.
    pub operation: Operation,
    /// What the transport said.
    pub error: TransportError,
}

/// What has gone over a channel since it was made, oldest first.
#[verifier::ext_equal]
pub struct Record {
    /// The bytes that reads have handed out.
    pub received: Seq<u8>,
    /// The bytes that writes have got across.
    pub sent: Seq<u8>,
    /// The failures of reads and writes.
    pub failures: Seq<Failure>,
}

impl Record {
    /// The record of a channel that nothing has gone over.
    pub open spec fn empty() -> Record {
        Record { received: Seq::empty(), sent: Seq::empty(), failures: Seq::empty() }
    }

    /// The record with `bytes` received behind what was received before.
    pub open spec fn with_received(self, bytes: Seq<u8>) -> Record {
        Record { received: self.received + bytes, ..self }
    }

    /// The record with `bytes` sent behind what was sent before.
    pub open spec fn with_sent(self, bytes: Seq<u8>) -> Record {
        Record { sent: self.sent + bytes, ..self }
    }

    /// The record with one more failure: that of a read or a write, as
    /// `operation` says.
    pub open spec fn with_failure(self, operation: Operation, error: TransportError) -> Record {
        Record { failures: self.failures.push(Failure { operation, error }), ..self }
    }

    /// The record after a read with the given result: the bytes read are
    /// received, or the failure is noted.
    pub open spec fn after_read(self, result: Result<Vec<u8>, TransportError>) -> Record {
        match result {
            Ok(bytes) => self.with_received(bytes@),
            Err(failure) => self.with_failure(Operation::Read, failure),
        }
    }

    /// The record after a write of `bytes` with the given result: the bytes
    /// are sent, or the failure is noted.
    pub open spec fn after_write(
        self,
        bytes: Seq<u8>,
        result: Result<(), TransportError>,
    ) -> Record {
        match result {
            Ok(_) => self.with_sent(bytes),
            Err(failure) => self.with_failure(Operation::Write, failure),
        }
    }

    /// Whether `self` is the record `before` with more behind it, or
    /// `before` itself: nothing on record is ever taken back.
    pub open spec fn follows(self, before: Record) -> bool {
        &&& before.received.is_prefix_of(self.received)
        &&& before.sent.is_prefix_of(self.sent)
        &&& before.failures.is_prefix_of(self.failures)
    }

    /// The bytes received since the record was `before`.
    pub open spec fn read_since(self, before: Record) -> Seq<u8>
        recommends
            self.follows(before),
    {
        self.received.skip(before.received.len() as int)
    }

    /// The bytes sent since the record was `before`.
    pub open spec fn written_since(self, before: Record) -> Seq<u8>
        recommends
            self.follows(before),
    {
        self.sent.skip(before.sent.len() as int)
    }

    /// The failures met since the record was `before`.
    pub open spec fn failed_since(self, before: Record) -> Seq<Failure>
        recommends
            self.follows(before),
    {
        self.failures.skip(before.failures.len() as int)
    }

    /// Whether no failure was met since the record was `before`.
    pub open spec fn quiet_since(self, before: Record) -> bool {
        self.follows(before) && self.failed_since(before).len() == 0
    }

    /// Whether one failure was met since the record was `before`, and no
    /// other: that of a read or a write, as `operation` says, with `error`
    /// for what the transport said.
    pub open spec fn failed_with(
        self,
        before: Record,
        operation: Operation,
        error: TransportError,
    ) -> bool {
        self.follows(before) && self.failed_since(before) == seq![Failure { operation, error }]
    }
}

/// Every record follows itself, with nothing read, written or failed since.
pub proof fn lemma_nothing_since(record: Record)
    ensures
        record.follows(record),
        record.read_since(record) == Seq::<u8>::empty(),
        record.written_since(record) == Seq::<u8>::empty(),
        record.quiet_since(record),
{
    assert(record.read_since(record) =~= Seq::<u8>::empty());
    assert(record.written_since(record) =~= Seq::<u8>::empty());
    assert(record.failed_since(record) =~= Seq::<Failure>::empty());
}

/// What goes on record in two steps is what goes on record in the first,
/// then what goes on record in the second.
pub proof fn lemma_since_twice(first: Record, second: Record, third: Record)
    requires
        second.follows(first),
        third.follows(second),
    ensures
        third.follows(first),
        third.read_since(first) == second.read_since(first) + third.read_since(second),
        third.written_since(first) == second.written_since(first) + third.written_since(second),
        third.failed_since(first) == second.failed_since(first) + third.failed_since(second),
{
    assert(third.read_since(first) =~= second.read_since(first) + third.read_since(second));
    assert(third.written_since(first) =~= second.written_since(first) + third.written_since(
        second,
    ));
    assert(third.failed_since(first) =~= second.failed_since(first) + third.failed_since(second));
}

/// A record with more bytes received follows the record, by those bytes and
/// by nothing else.
pub proof fn lemma_with_received(before: Record, bytes: Seq<u8>)
    ensures
        before.with_received(bytes).quiet_since(before),
        before.with_received(bytes).read_since(before) == bytes,
        before.with_received(bytes).written_since(before) == Seq::<u8>::empty(),
{
    let after = before.with_received(bytes);
    assert(after.read_since(before) =~= bytes);
    assert(after.written_since(before) =~= Seq::<u8>::empty());
    assert(after.failed_since(before) =~= Seq::<Failure>::empty());
}

/// A record with more bytes sent follows the record, by those bytes and by
/// nothing else.
pub proof fn lemma_with_sent(before: Record, bytes: Seq<u8>)
    ensures
        before.with_sent(bytes).quiet_since(before),
        before.with_sent(bytes).read_since(before) == Seq::<u8>::empty(),
        before.with_sent(bytes).written_since(before) == bytes,
{
    let after = before.with_sent(bytes);
    assert(after.read_since(before) =~= Seq::<u8>::empty());
    assert(after.written_since(before) =~= bytes);
    assert(after.failed_since(before) =~= Seq::<Failure>::empty());
}

/// A record with one more failure follows the record, by that failure and
/// by nothing else.
pub proof fn lemma_with_failure(before: Record, operation: Operation, error: TransportError)
    ensures
        before.with_failure(operation, error).failed_with(before, operation, error),
        before.with_failure(operation, error).read_since(before) == Seq::<u8>::empty(),
        before.with_failure(operation, error).written_since(before) == Seq::<u8>::empty(),
{
    let after = before.with_failure(operation, error);
    assert(after.read_since(before) =~= Seq::<u8>::empty());
    assert(after.written_since(before) =~= Seq::<u8>::empty());
    assert(after.failed_since(before) =~= seq![Failure { operation, error }]);
}

/// What a transport must do: read and write, blocking, whole or not at all.
/// How it is opened and configured is its own business, and so is the time
/// it waits before it gives up.
pub trait Transport {
    /// Reads exactly `count` bytes, or fails.
    fn read_exact(&mut self, count: usize) -> Result<Vec<u8>, TransportError>;

    /// Writes all of `bytes`, or fails.
    fn write_all(&mut self, bytes: &[u8]) -> Result<(), TransportError>;
}

/// A duplex byte channel with blocking reads and writes, and with the record
/// of what went over it.
///
/// The channels are those that this crate makes, each proved to keep its
/// record as stated here: [`Recorded`], over any transport, and
/// [`fixtures::MockChannel`]. The trait cannot be implemented elsewhere.
pub trait Channel: Sealed {
    /// What has gone over the channel so far.
    spec fn record(&self) -> Record;

    /// Reads exactly `count` bytes, or fails. The bytes read go on record,
    /// or the failure does, and nothing else.
    fn read_exact(&mut self, count: usize) -> (result: Result<Vec<u8>, TransportError>)
        ensures
            final(self).record() == old(self).record().after_read(result),
            result matches Ok(bytes) ==> bytes@.len() == count,
    ;

    /// Writes all of `bytes`, or fails. The bytes written go on record, or
    /// the failure does, and nothing else.
    fn write_all(&mut self, bytes: &[u8]) -> (result: Result<(), TransportError>)
        ensures
            final(self).record() == old(self).record().after_write(bytes@, result),
    ;
}

/// What a channel says of a transport that returned another number of bytes
/// than it was asked for.
pub const SHORT_READ: &'static str = "the transport read another number of bytes than asked";

/// Whether `result` is what a channel makes of the answer of its transport
/// to a read of `count` bytes: the answer itself, but a failure that reads
/// [`SHORT_READ`] where the answer holds another number of bytes.
pub open spec fn passed_on(
    answer: Result<Vec<u8>, TransportError>,
    count: usize,
    result: Result<Vec<u8>, TransportError>,
) -> bool {
    match answer {
        Ok(bytes) => if bytes@.len() == count {
            result == answer
        } else {
            result matches Err(failure) && failure@ == SHORT_READ@
        },
        Err(_) => result == answer,
    }
}

/// A transport and the record of what went over it.
pub struct Recorded<T: Transport> {
    transport: T,
    record: Ghost<Record>,
}

impl<T: Transport> Recorded<T> {
    /// The transport underneath.
    pub closed spec fn transport(&self) -> T {
        self.transport
    }

    /// A channel over `transport`, with nothing on record.
    pub fn new(transport: T) -> (channel: Self)
        ensures
            channel.transport() == transport,
            channel.record() == Record::empty(),
    {
        Recorded { transport, record: Ghost(Record::empty()) }
    }

    /// Gives the transport back.
    pub fn into_inner(self) -> (transport: T)
        ensures
            transport == self.transport(),
    {
        self.transport
    }
}

impl<T: Transport> Sealed for Recorded<T> {
}

impl<T: Transport> Channel for Recorded<T> {
    closed spec fn record(&self) -> Record {
        self.record@
    }

    /// Reads from the transport, and returns what the transport returns. A
    /// transport that returns another number of bytes than it was asked for
    /// has failed, and the call fails in its place.
    fn read_exact(&mut self, count: usize) -> (result: Result<Vec<u8>, TransportError>)
        ensures
            exists|reading: &mut T, answer: Result<Vec<u8>, TransportError>|
                {
                    &&& *reading == old(self).transport()
                    &&& #[trigger] call_ensures(T::read_exact, (reading, count), answer)
                    &&& *final(reading) == final(self).transport()
                    &&& passed_on(answer, count, result)
                },
    {
        let answer = self.transport.read_exact(count);
        let result = match answer {
            Ok(bytes) => {
                if bytes.len() == count {
                    Ok(bytes)
                } else {
                    Err(TransportError::new(SHORT_READ))
                }
            },
            Err(failure) => Err(failure),
        };
        proof {
            self.record@ = self.record@.after_read(result);
        }
        result
    }

    /// Writes to the transport, and returns what the transport returns.
    fn write_all(&mut self, bytes: &[u8]) -> (result: Result<(), TransportError>)
        ensures
            exists|writing: &mut T|
                {
                    &&& *writing == old(self).transport()
                    &&& #[trigger] call_ensures(T::write_all, (writing, bytes), result)
                    &&& *final(writing) == final(self).transport()
                },
    {
        let result = self.transport.write_all(bytes);
        proof {
            self.record@ = self.record@.after_write(bytes@, result);
        }
        result
    }
}

} // verus!
