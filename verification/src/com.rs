//! Frames on a channel: sending one, and finding the next one in the bytes
//! that arrive.
//!
//! The instrument may send anything before a frame. The receiver throws
//! bytes away until it sees the magic byte, then buffers the frame that the
//! byte opens: the length, the command, as many payload bytes as the length
//! says, and two checksum bytes. A frame is delimited by its length byte
//! alone; whether it is sound is decided once it is whole.

use crate::channel::lemma_with_failure;
use crate::channel::lemma_with_received;
use crate::channel::lemma_since_twice;
use crate::channel::Channel;
use crate::channel::Operation;
use crate::channel::Record;
use crate::error::ProtocolError;
use crate::frame::decode;
use crate::frame::encode;
use crate::frame::Frame;
use crate::frame::FrameError;
use crate::frame::FrameView;
use crate::frame::FRAME_MAGIC_VALUE;
use crate::frame::FRAME_MAX_SIZE;
use vstd::prelude::*;

verus! {

/// Where the receiver stands in a frame: what the next byte will be.
#[derive(Debug, Clone, Copy, PartialEq, Eq, Structural)]
pub enum ReceiverState {
    /// No frame has begun; the next byte is noise unless it is the magic
    /// byte.
    Seeking,
    /// The next byte is the payload's length.
    Length,
    /// The next byte is the command.
    Command,
    /// The next byte belongs to the payload.
    Data,
    /// The next byte is the checksum's high byte.
    CrcHigh,
    /// The next byte is the checksum's low byte, and the frame's last.
    CrcLow,
}

/// A stream without the noise at its head: the bytes from the first magic
/// byte on, or nothing where the stream holds no magic byte.
pub open spec fn strip_noise(stream: Seq<u8>) -> Seq<u8>
    decreases stream.len(),
{
    if stream.len() == 0 || stream[0] == FRAME_MAGIC_VALUE {
        stream
    } else {
        strip_noise(stream.drop_first())
    }
}

/// Whether `candidate` has the length that its length byte announces: header,
/// payload and checksum.
pub open spec fn is_complete(candidate: Seq<u8>) -> bool {
    candidate.len() >= 2 && candidate.len() == 5 + candidate[1]
}

/// Whether `pending` is the beginning of a candidate and not yet all of it:
/// nothing, or a magic byte and fewer bytes behind it than the length byte
/// announces.
pub open spec fn is_partial(pending: Seq<u8>) -> bool {
    pending.len() == 0 || (pending[0] == FRAME_MAGIC_VALUE && (pending.len() < 2 || pending.len()
        < 5 + pending[1]))
}

/// What the receiver holds after one more byte: noise is dropped, anything
/// else is buffered.
pub open spec fn advance(pending: Seq<u8>, byte: u8) -> Seq<u8> {
    if pending.len() == 0 && byte != FRAME_MAGIC_VALUE {
        pending
    } else {
        pending.push(byte)
    }
}

/// The state of a receiver that holds `pending`.
pub open spec fn state_of(pending: Seq<u8>) -> ReceiverState {
    if pending.len() == 0 {
        ReceiverState::Seeking
    } else if pending.len() == 1 {
        ReceiverState::Length
    } else if pending.len() == 2 {
        ReceiverState::Command
    } else if pending.len() < 3 + pending[1] {
        ReceiverState::Data
    } else if pending.len() == 3 + pending[1] {
        ReceiverState::CrcHigh
    } else {
        ReceiverState::CrcLow
    }
}

/// The first candidate in a stream and the bytes behind it, where the stream
/// holds a whole candidate: noise is skipped, and the candidate ends where
/// its length byte says.
pub open spec fn next_candidate(stream: Seq<u8>) -> Option<(Seq<u8>, Seq<u8>)> {
    let found = strip_noise(stream);
    if found.len() >= 2 && found.len() >= 5 + found[1] {
        Some((found.take(5 + found[1]), found.skip(5 + found[1])))
    } else {
        None
    }
}

/// What reading one frame from a stream gives, and the bytes left behind it;
/// nothing where the stream ends before a candidate is whole.
pub open spec fn next_frame(stream: Seq<u8>) -> Option<(Result<FrameView, FrameError>, Seq<u8>)> {
    match next_candidate(stream) {
        Some((candidate, rest)) => Some((decode(candidate), rest)),
        None => None,
    }
}

/// Stripping the noise of a stream byte by byte is what [`advance`] does.
pub proof fn lemma_strip_noise_push(stream: Seq<u8>, byte: u8)
    ensures
        strip_noise(stream.push(byte)) == advance(strip_noise(stream), byte),
        strip_noise(stream).len() == 0 || strip_noise(stream)[0] == FRAME_MAGIC_VALUE,
    decreases stream.len(),
{
    if stream.len() == 0 {
        assert(stream.push(byte).drop_first() =~= stream);
        assert(strip_noise(stream.push(byte)) =~= advance(strip_noise(stream), byte));
    } else if stream[0] != FRAME_MAGIC_VALUE {
        assert(stream.push(byte).drop_first() =~= stream.drop_first().push(byte));
        lemma_strip_noise_push(stream.drop_first(), byte);
    }
}

/// Once a stream holds a magic byte, what follows the stream follows its
/// candidate.
pub proof fn lemma_strip_noise_concat(stream: Seq<u8>, more: Seq<u8>)
    requires
        strip_noise(stream).len() > 0,
    ensures
        strip_noise(stream + more) == strip_noise(stream) + more,
    decreases stream.len(),
{
    if stream[0] != FRAME_MAGIC_VALUE {
        assert((stream + more).drop_first() =~= stream.drop_first() + more);
        lemma_strip_noise_concat(stream.drop_first(), more);
    }
}

/// A frame is found again behind any noise that holds no magic byte: the
/// stream of noise and encoded frame is read as that frame, to its last byte.
pub proof fn lemma_next_frame_of_encoded(
    noise: Seq<u8>,
    command: crate::frame::Command,
    payload: Seq<u8>,
)
    requires
        forall|i: int| 0 <= i < noise.len() ==> noise[i] != FRAME_MAGIC_VALUE,
        payload.len() <= crate::frame::FRAME_MAX_DATA_SIZE,
    ensures
        next_frame(noise + encode(command, payload)) == Some(
            (Ok::<FrameView, FrameError>(FrameView { command, payload }), Seq::<u8>::empty()),
        ),
    decreases noise.len(),
{
    let bytes = encode(command, payload);
    if noise.len() == 0 {
        assert(noise + bytes =~= bytes);
        assert(bytes.take(5 + bytes[1]) =~= bytes);
        assert(bytes.skip(5 + bytes[1]) =~= Seq::<u8>::empty());
        crate::frame::lemma_decode_encode(command, payload);
    } else {
        assert((noise + bytes).drop_first() =~= noise.drop_first() + bytes);
        lemma_next_frame_of_encoded(noise.drop_first(), command, payload);
    }
}

/// The receiver: a state and the bytes of the candidate buffered so far.
pub struct Receiver {
    state: ReceiverState,
    buffer: Vec<u8>,
}

impl Receiver {
    /// The buffer holds the beginning of a candidate, and the state says how
    /// far it has got.
    #[verifier::type_invariant]
    closed spec fn well_formed(self) -> bool {
        is_partial(self.buffer@) && self.state == state_of(self.buffer@)
    }

    /// The bytes of the candidate buffered so far.
    pub closed spec fn pending(&self) -> Seq<u8> {
        self.buffer@
    }

    /// A receiver that has seen nothing.
    pub fn new() -> (receiver: Receiver)
        ensures
            receiver.pending() == Seq::<u8>::empty(),
    {
        Receiver { state: ReceiverState::Seeking, buffer: Vec::with_capacity(FRAME_MAX_SIZE) }
    }

    /// Where the receiver stands. What it holds is the beginning of a
    /// candidate, and so less than the longest frame.
    pub fn state(&self) -> (state: ReceiverState)
        ensures
            state == state_of(self.pending()),
            is_partial(self.pending()),
            self.pending().len() < FRAME_MAX_SIZE,
    {
        proof {
            use_type_invariant(self);
        }
        self.state
    }

    /// Takes the next byte of the stream. With the last byte of a candidate
    /// the receiver hands out what the candidate decodes to and starts over;
    /// with any other byte it hands out nothing.
    pub fn push(&mut self, byte: u8) -> (outcome: Option<Result<Frame, FrameError>>)
        ensures
            is_partial(old(self).pending()),
            !is_complete(advance(old(self).pending(), byte)) ==> outcome is None
                && final(self).pending() == advance(old(self).pending(), byte),
            is_complete(advance(old(self).pending(), byte)) ==> final(self).pending()
                == Seq::<u8>::empty() && match outcome {
                Some(Ok(frame)) => decode(advance(old(self).pending(), byte)) == Ok::<
                    FrameView,
                    FrameError,
                >(frame@),
                Some(Err(error)) => decode(advance(old(self).pending(), byte)) == Err::<
                    FrameView,
                    FrameError,
                >(error),
                None => false,
            },
    {
        proof {
            use_type_invariant(&*self);
        }
        let mut current = Receiver { state: ReceiverState::Seeking, buffer: Vec::new() };
        std::mem::swap(self, &mut current);
        let Receiver { state, mut buffer } = current;
        buffer.push(byte);
        let next = match state {
            ReceiverState::Seeking => {
                if byte == FRAME_MAGIC_VALUE {
                    ReceiverState::Length
                } else {
                    buffer.clear();
                    ReceiverState::Seeking
                }
            },
            ReceiverState::Length => ReceiverState::Command,
            ReceiverState::Command => {
                if buffer[1] > 0 {
                    ReceiverState::Data
                } else {
                    ReceiverState::CrcHigh
                }
            },
            ReceiverState::Data => {
                if buffer.len() == 3 + buffer[1] as usize {
                    ReceiverState::CrcHigh
                } else {
                    ReceiverState::Data
                }
            },
            ReceiverState::CrcHigh => ReceiverState::CrcLow,
            ReceiverState::CrcLow => {
                let outcome = Frame::from_bytes(buffer.as_slice());
                buffer.clear();
                *self = Receiver { state: ReceiverState::Seeking, buffer };
                return Some(outcome);
            },
        };
        *self = Receiver { state: next, buffer };
        None
    }
}

/// The most bytes that the receiver takes from a channel for one frame.
/// A channel delivers them in no lifetime; the bound is there so that every
/// call returns.
pub const MAX_BYTES_PER_FRAME: u64 = u64::MAX;

/// Writes a frame to the channel. The frame's bytes go on record as sent, or
/// the failure of the transport goes on record and is returned.
pub fn send_frame<C: Channel>(frame: &Frame, port: &mut C) -> (result: Result<(), ProtocolError>)
    ensures
        match result {
            Ok(_) => final(port).record() == old(port).record().with_sent(
                encode(frame@.command, frame@.payload),
            ),
            Err(ProtocolError::Transport(failure)) => final(port).record()
                == old(port).record().with_failure(Operation::Write, failure),
            Err(_) => false,
        },
{
    let bytes = frame.to_bytes();
    match port.write_all(bytes.as_slice()) {
        Ok(_) => Ok(()),
        Err(failure) => Err(ProtocolError::Transport(failure)),
    }
}

/// Reads one byte from the channel. The byte goes on record as received, or
/// the failure of the transport goes on record and is returned.
pub fn read<C: Channel>(port: &mut C) -> (result: Result<u8, ProtocolError>)
    ensures
        match result {
            Ok(byte) => final(port).record() == old(port).record().with_received(seq![byte]),
            Err(ProtocolError::Transport(failure)) => final(port).record()
                == old(port).record().with_failure(Operation::Read, failure),
            Err(_) => false,
        },
{
    match port.read_exact(1) {
        Ok(bytes) => {
            proof {
                assert(bytes@ =~= seq![bytes@[0]]);
            }
            Ok(bytes[0])
        },
        Err(failure) => Err(ProtocolError::Transport(failure)),
    }
}

/// Whether a call that took a channel's record from `before` to `after`
/// received one frame with the result `result`.
///
/// The call has written nothing. What it has read is a frame to its last
/// byte, and its result is what the frame decodes to; or the transport has
/// failed before the frame was whole, and its result is that failure; or it
/// has read all the bytes it is willing to read for one frame.
pub open spec fn received(
    before: Record,
    after: Record,
    result: Result<FrameView, ProtocolError>,
) -> bool {
    let read = after.read_since(before);
    &&& after.follows(before)
    &&& after.written_since(before).len() == 0
    &&& match result {
        Ok(frame) => after.quiet_since(before) && next_frame(read) == Some(
            (Ok::<FrameView, FrameError>(frame), Seq::<u8>::empty()),
        ),
        Err(ProtocolError::Frame(error)) => after.quiet_since(before) && next_frame(read) == Some(
            (Err::<FrameView, FrameError>(error), Seq::<u8>::empty()),
        ),
        Err(ProtocolError::Transport(failure)) => after.failed_with(
            before,
            Operation::Read,
            failure,
        ) && next_frame(read) is None,
        Err(ProtocolError::NoFrame) => after.quiet_since(before) && next_frame(read) is None
            && read.len() == MAX_BYTES_PER_FRAME,
        Err(_) => false,
    }
}

/// The result of a call that returns a frame, with the frame as what it
/// holds.
pub open spec fn frame_of(result: Result<Frame, ProtocolError>) -> Result<
    FrameView,
    ProtocolError,
> {
    match result {
        Ok(frame) => Ok(frame@),
        Err(error) => Err(error),
    }
}

/// Reads the next frame from the channel, byte by byte, and stops with the
/// frame's last byte.
pub fn receive_frame<C: Channel>(port: &mut C) -> (result: Result<Frame, ProtocolError>)
    ensures
        received(old(port).record(), final(port).record(), frame_of(result)),
{
    let mut receiver = Receiver::new();
    let mut budget: u64 = MAX_BYTES_PER_FRAME;
    let ghost mut consumed: Seq<u8> = Seq::empty();
    proof {
        assert(old(port).record().with_received(consumed) =~= old(port).record());
    }
    while budget > 0
        invariant
            port.record() == old(port).record().with_received(consumed),
            consumed.len() == MAX_BYTES_PER_FRAME - budget,
            receiver.pending() == strip_noise(consumed),
            is_partial(receiver.pending()),
        decreases budget,
    {
        budget -= 1;
        let ghost before = port.record();
        let byte: u8 = match read(port) {
            Ok(byte) => byte,
            Err(error) => {
                proof {
                    lemma_with_received(old(port).record(), consumed);
                    lemma_with_failure(before, Operation::Read, error->Transport_0);
                    lemma_since_twice(old(port).record(), before, port.record());
                    assert(consumed + Seq::<u8>::empty() =~= consumed);
                }
                return Err(error);
            },
        };
        proof {
            lemma_strip_noise_push(consumed, byte);
            assert(before.with_received(seq![byte]) =~= old(port).record().with_received(
                consumed.push(byte),
            ));
            consumed = consumed.push(byte);
            lemma_with_received(old(port).record(), consumed);
        }
        match receiver.push(byte) {
            Some(outcome) => {
                proof {
                    let found = strip_noise(consumed);
                    assert(found.take(5 + found[1]) =~= found);
                    assert(found.skip(5 + found[1]) =~= Seq::<u8>::empty());
                }
                return match outcome {
                    Ok(frame) => Ok(frame),
                    Err(error) => Err(ProtocolError::Frame(error)),
                };
            },
            None => {},
        }
    }
    proof {
        lemma_with_received(old(port).record(), consumed);
    }
    Err(ProtocolError::NoFrame)
}

} // verus!
