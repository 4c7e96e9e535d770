//! The command exchange: a request, an acknowledge frame, a response frame.
//!
//! The instrument answers every request twice. The first frame acknowledges
//! the request, the second carries the result. Both must carry the command
//! that was asked for; an error frame in either place ends the exchange with
//! the error it reports. One request is outstanding at a time, and no
//! failure is retried.
//!
//! Flash is read in chunks of at most 255 bytes, one exchange per chunk,
//! because a frame's payload is no longer than that.

use crate::bytes::append;
use crate::channel::lemma_nothing_since;
use crate::channel::lemma_since_twice;
use crate::channel::lemma_with_failure;
use crate::channel::lemma_with_sent;
use crate::channel::Channel;
use crate::channel::Operation;
use crate::channel::Record;
use crate::com::frame_of;
use crate::com::MAX_BYTES_PER_FRAME;
use crate::com::received;
use crate::com::lemma_next_frame_of_encoded;
use crate::com::lemma_strip_noise_concat;
use crate::com::next_frame;
use crate::com::receive_frame;
use crate::com::send_frame;
use crate::com::strip_noise;
use crate::endian::be16;
use crate::endian::be16_bytes;
use crate::endian::be32;
use crate::endian::u16_to_be;
use crate::error::ProtocolError;
use crate::frame::encode;
use crate::frame::Command;
use crate::frame::ErrorCode;
use crate::frame::Frame;
use crate::frame::FrameError;
use crate::frame::FrameView;
use crate::frame::FRAME_MAX_DATA_SIZE;
use crate::frame::FRAME_MAX_SIZE;
use crate::parser::ByteArrayParser;
use vstd::math::min;
use vstd::prelude::*;
use vstd::utf8::decode_utf8;
use vstd::utf8::valid_utf8;

verus! {

/// The most bytes that one exchange reads from flash.
pub const FLASH_CHUNK_SIZE: u16 = 255;

/// What the protocol makes of a frame received in answer to `command`: an
/// error frame fails with the error it reports, a frame for another command
/// fails as a mismatch, and a frame that did not decode fails as it is.
pub open spec fn checked(command: Command, received: Result<FrameView, FrameError>) -> Result<
    FrameView,
    ProtocolError,
> {
    match received {
        Err(error) => Err(ProtocolError::Frame(error)),
        Ok(frame) => if frame.command == Command::GetLastError {
            Err(ProtocolError::Device { command, code: ErrorCode::of_payload(frame.payload) })
        } else if frame.command != command {
            Err(ProtocolError::UnexpectedCommand { expected: command, received: frame.command })
        } else {
            Ok(frame)
        },
    }
}

/// The next frame of a stream, checked as an answer to `command`, and the
/// bytes left behind it; nothing where the stream ends before the frame does.
pub open spec fn reply(command: Command, stream: Seq<u8>) -> Option<
    (Result<FrameView, ProtocolError>, Seq<u8>),
> {
    match next_frame(stream) {
        Some((received, rest)) => Some((checked(command, received), rest)),
        None => None,
    }
}

/// What the acknowledge frame alone makes of a stream: nothing to return,
/// or the failure.
pub open spec fn acknowledgement(command: Command, stream: Seq<u8>) -> Option<
    (Result<(), ProtocolError>, Seq<u8>),
> {
    match reply(command, stream) {
        Some((Ok(_), rest)) => Some((Ok(()), rest)),
        Some((Err(error), rest)) => Some((Err(error), rest)),
        None => None,
    }
}

/// What one exchange makes of a stream: the payload of the response frame
/// where acknowledge and response both pass, else the first failure; and the
/// bytes left behind the last frame read. Nothing where the stream ends
/// before the exchange does.
pub open spec fn exchange(command: Command, stream: Seq<u8>) -> Option<
    (Result<Seq<u8>, ProtocolError>, Seq<u8>),
> {
    match reply(command, stream) {
        Some((Ok(_), rest)) => match reply(command, rest) {
            Some((Ok(response), rest)) => Some((Ok(response.payload), rest)),
            Some((Err(error), rest)) => Some((Err(error), rest)),
            None => None,
        },
        Some((Err(error), rest)) => Some((Err(error), rest)),
        None => None,
    }
}

/// Whether a call that took a channel's record from `before` to `after` sent
/// `request` and read what answers it, with the result `result`, where
/// `outcome` is what the answers in the bytes read amount to.
///
/// A call that was not interrupted has written the request and read the
/// answers to their last byte, and its result is what they amount to. A call
/// that the transport failed returns that failure, and no other is on
/// record: where the write of the request failed, nothing was written and
/// nothing read; where a read failed, the request was written, and the
/// answers were not read to their end. A call that gave up for want of a
/// frame has written the request and read as many bytes as the receiver
/// takes for one frame, or more, and not the answers to their end.
pub open spec fn conversed<T>(
    request: Seq<u8>,
    before: Record,
    after: Record,
    result: Result<T, ProtocolError>,
    outcome: Option<(Result<T, ProtocolError>, Seq<u8>)>,
) -> bool {
    let read = after.read_since(before);
    let written = after.written_since(before);
    &&& after.follows(before)
    &&& match result {
        Err(ProtocolError::Transport(failure)) => outcome is None && (if read.len() == 0
            && written.len() == 0 {
            after.failed_with(before, Operation::Write, failure)
        } else {
            after.failed_with(before, Operation::Read, failure) && written == request
        }),
        Err(ProtocolError::NoFrame) => after.quiet_since(before) && outcome is None && written
            == request && read.len() >= MAX_BYTES_PER_FRAME,
        _ => after.quiet_since(before) && written == request && outcome == Some(
            (result, Seq::<u8>::empty()),
        ),
    }
}

/// Whether a call carried out one exchange for `request` with the result
/// `result`: what the bytes read amount to is what [`exchange`] makes of
/// them.
pub open spec fn exchanged(
    command: Command,
    request: Seq<u8>,
    before: Record,
    after: Record,
    result: Result<Seq<u8>, ProtocolError>,
) -> bool {
    conversed(request, before, after, result, exchange(command, after.read_since(before)))
}

/// Whether a call sent `request` and got it acknowledged, with the result
/// `result`: what the bytes read amount to is what [`acknowledgement`] makes
/// of them.
pub open spec fn acknowledged(
    command: Command,
    request: Seq<u8>,
    before: Record,
    after: Record,
    result: Result<(), ProtocolError>,
) -> bool {
    conversed(request, before, after, result, acknowledgement(command, after.read_since(before)))
}

/// What an exchange amounts to when the payload of the response is read as
/// a value.
pub open spec fn converted<T>(
    outcome: Option<(Result<Seq<u8>, ProtocolError>, Seq<u8>)>,
    convert: spec_fn(Seq<u8>) -> Result<T, ProtocolError>,
) -> Option<(Result<T, ProtocolError>, Seq<u8>)> {
    match outcome {
        Some((Ok(payload), rest)) => Some((convert(payload), rest)),
        Some((Err(error), rest)) => Some((Err(error), rest)),
        None => None,
    }
}

/// Whether a call carried out one exchange for `request` and read its
/// result as `convert` does, with the result `result`.
pub open spec fn answered<T>(
    command: Command,
    request: Seq<u8>,
    before: Record,
    after: Record,
    result: Result<T, ProtocolError>,
    convert: spec_fn(Seq<u8>) -> Result<T, ProtocolError>,
) -> bool {
    conversed(
        request,
        before,
        after,
        result,
        converted(exchange(command, after.read_since(before)), convert),
    )
}

/// The result of a call that returns bytes, with the bytes as a sequence.
pub open spec fn bytes_of(result: Result<Vec<u8>, ProtocolError>) -> Result<
    Seq<u8>,
    ProtocolError,
> {
    match result {
        Ok(data) => Ok(data@),
        Err(error) => Err(error),
    }
}

/// The result of a call that returns text, with the text as a sequence.
pub open spec fn text_of(result: Result<String, ProtocolError>) -> Result<
    Seq<char>,
    ProtocolError,
> {
    match result {
        Ok(text) => Ok(text@),
        Err(error) => Err(error),
    }
}

/// The first four bytes of a payload as a big-endian 32-bit value.
pub open spec fn payload_u32(payload: Seq<u8>) -> Result<u32, ProtocolError> {
    if payload.len() >= 4 {
        Ok(be32(payload[0], payload[1], payload[2], payload[3]))
    } else {
        Err(ProtocolError::OutOfBounds)
    }
}

/// The first two bytes of a payload as a big-endian 16-bit value.
pub open spec fn payload_u16(payload: Seq<u8>) -> Result<u16, ProtocolError> {
    if payload.len() >= 2 {
        Ok(be16(payload[0], payload[1]))
    } else {
        Err(ProtocolError::OutOfBounds)
    }
}

/// A payload as text: the characters that its bytes encode in UTF-8.
pub open spec fn payload_text(payload: Seq<u8>) -> Result<Seq<char>, ProtocolError> {
    if valid_utf8(payload) {
        Ok(decode_utf8(payload))
    } else {
        Err(ProtocolError::InvalidUtf8)
    }
}

/// The number of chunks in which `size` bytes are read: `size / 255`, rounded
/// up.
pub open spec fn chunk_count(size: u16) -> nat {
    ((size + 254) / 255) as nat
}

/// The number of bytes that remain to be read when chunk `index` of a read
/// of `size` bytes is asked for: every chunk before it took 255.
pub open spec fn remaining(size: u16, index: nat) -> int {
    size - 255 * index
}

/// The size of chunk `index` of a read of `size` bytes: 255, or what remains
/// where less remains.
pub open spec fn chunk_length(size: u16, index: nat) -> u16 {
    if remaining(size, index) >= 255 {
        255
    } else {
        remaining(size, index) as u16
    }
}

/// The address of chunk `index` of a read that starts at `addr`: every chunk
/// starts where the one before it ended. Addresses are 16 bits wide and wrap
/// round.
pub open spec fn chunk_pointer(addr: u16, index: nat) -> u16 {
    ((addr + 255 * index) % 0x1_0000) as u16
}

/// The payload that asks for `size` bytes of flash from `pointer` on.
pub open spec fn chunk_payload(pointer: u16, size: u16) -> Seq<u8> {
    be16_bytes(pointer) + be16_bytes(size)
}

/// The request frame for chunk `index` of a read of `size` bytes from `addr`.
pub open spec fn chunk_request(addr: u16, size: u16, index: nat) -> Seq<u8> {
    encode(
        Command::FlashRead,
        chunk_payload(chunk_pointer(addr, index), chunk_length(size, index)),
    )
}

/// The request frames for the first `count` chunks, in address order.
pub open spec fn chunk_requests(addr: u16, size: u16, count: nat) -> Seq<u8>
    decreases count,
{
    if count == 0 {
        Seq::<u8>::empty()
    } else {
        chunk_requests(addr, size, (count - 1) as nat) + chunk_request(
            addr,
            size,
            (count - 1) as nat,
        )
    }
}

/// What `count` flash-read exchanges in a row make of a stream: the payloads
/// of all responses, in the order received, or the first failure; and the
/// bytes left behind the last frame read. Nothing where the stream ends
/// before the exchanges do.
pub open spec fn gathered(stream: Seq<u8>, count: nat) -> Option<
    (Result<Seq<u8>, ProtocolError>, Seq<u8>),
>
    decreases count,
{
    if count == 0 {
        Some((Ok(Seq::<u8>::empty()), stream))
    } else {
        match gathered(stream, (count - 1) as nat) {
            Some((Ok(data), rest)) => match exchange(Command::FlashRead, rest) {
                Some((Ok(more), rest)) => Some((Ok(data + more), rest)),
                Some((Err(error), rest)) => Some((Err(error), rest)),
                None => None,
            },
            Some((Err(error), rest)) => Some((Err(error), rest)),
            None => None,
        }
    }
}

/// What is found at the head of a stream stays what it is when more bytes
/// follow; the bytes that follow are left over with the rest.
pub proof fn lemma_reply_more(command: Command, stream: Seq<u8>, more: Seq<u8>)
    requires
        reply(command, stream) is Some,
    ensures
        reply(command, stream + more) == Some(
            (reply(command, stream)->Some_0.0, reply(command, stream)->Some_0.1 + more),
        ),
{
    let found = strip_noise(stream);
    lemma_strip_noise_concat(stream, more);
    assert((found + more).take(5 + found[1]) =~= found.take(5 + found[1]));
    assert((found + more).skip(5 + found[1]) =~= found.skip(5 + found[1]) + more);
}

/// An exchange found at the head of a stream stays what it is when more
/// bytes follow.
pub proof fn lemma_exchange_more(command: Command, stream: Seq<u8>, more: Seq<u8>)
    requires
        exchange(command, stream) is Some,
    ensures
        exchange(command, stream + more) == Some(
            (exchange(command, stream)->Some_0.0, exchange(command, stream)->Some_0.1 + more),
        ),
{
    lemma_reply_more(command, stream, more);
    let first = reply(command, stream)->Some_0;
    if first.0 is Ok {
        lemma_reply_more(command, first.1, more);
    }
}

/// The frames of a device that answers as it should are accepted: an
/// acknowledge frame and a response frame for the command asked for, one
/// behind the other, make an exchange that returns the payload of the
/// response and leaves nothing over.
pub proof fn lemma_exchange_of_answer(command: Command, acknowledge: Seq<u8>, response: Seq<u8>)
    requires
        command != Command::GetLastError,
        acknowledge.len() <= FRAME_MAX_DATA_SIZE,
        response.len() <= FRAME_MAX_DATA_SIZE,
    ensures
        exchange(command, encode(command, acknowledge) + encode(command, response)) == Some(
            (Ok::<Seq<u8>, ProtocolError>(response), Seq::<u8>::empty()),
        ),
{
    let first = encode(command, acknowledge);
    let second = encode(command, response);
    lemma_next_frame_of_encoded(Seq::<u8>::empty(), command, acknowledge);
    lemma_next_frame_of_encoded(Seq::<u8>::empty(), command, response);
    assert(Seq::<u8>::empty() + first =~= first);
    assert(Seq::<u8>::empty() + second =~= second);
    lemma_reply_more(command, first, second);
}

/// An error frame in place of the acknowledge frame fails the exchange with
/// the error it reports, whatever follows it.
pub proof fn lemma_exchange_of_error(command: Command, report: Seq<u8>, more: Seq<u8>)
    requires
        report.len() <= FRAME_MAX_DATA_SIZE,
    ensures
        exchange(command, encode(Command::GetLastError, report) + more) == Some(
            (
                Err::<Seq<u8>, ProtocolError>(
                    ProtocolError::Device { command, code: ErrorCode::of_payload(report) },
                ),
                more,
            ),
        ),
{
    let first = encode(Command::GetLastError, report);
    lemma_next_frame_of_encoded(Seq::<u8>::empty(), Command::GetLastError, report);
    assert(Seq::<u8>::empty() + first =~= first);
    lemma_reply_more(command, first, more);
    assert(Seq::<u8>::empty() + more =~= more);
}

/// A run of exchanges found at the head of a stream stays what it is when
/// more bytes follow.
pub proof fn lemma_gathered_more(stream: Seq<u8>, more: Seq<u8>, count: nat)
    requires
        gathered(stream, count) is Some,
    ensures
        gathered(stream + more, count) == Some(
            (gathered(stream, count)->Some_0.0, gathered(stream, count)->Some_0.1 + more),
        ),
    decreases count,
{
    if count > 0 {
        let before = (count - 1) as nat;
        lemma_gathered_more(stream, more, before);
        let so_far = gathered(stream, before)->Some_0;
        if so_far.0 is Ok {
            lemma_exchange_more(Command::FlashRead, so_far.1, more);
        }
    }
}

/// A run of exchanges that has failed, or that the stream has ended on, is
/// not mended by asking for more exchanges.
pub proof fn lemma_gathered_stops(stream: Seq<u8>, count: nat, further: nat)
    requires
        count <= further,
        !(gathered(stream, count) matches Some((Ok(_), _))),
    ensures
        gathered(stream, further) == gathered(stream, count),
    decreases further,
{
    if count < further {
        lemma_gathered_stops(stream, count, (further - 1) as nat);
    }
}

/// Success is owed. A call that met no failure of the transport, and that
/// read fewer bytes than the receiver takes for one frame, was not
/// interrupted: it has written the request, it has read the answers to
/// their last byte, and its result is what they amount to.
pub proof fn lemma_conversed_to_the_end<T>(
    request: Seq<u8>,
    before: Record,
    after: Record,
    result: Result<T, ProtocolError>,
    outcome: Option<(Result<T, ProtocolError>, Seq<u8>)>,
)
    requires
        conversed(request, before, after, result, outcome),
        after.quiet_since(before),
        after.read_since(before).len() < MAX_BYTES_PER_FRAME,
    ensures
        after.written_since(before) == request,
        outcome == Some((result, Seq::<u8>::empty())),
{
}

/// An exchange whose answers were read returns the payload of the response.
/// Where the bytes read are an acknowledge frame and a response frame for
/// the command asked for, the call has returned the payload of the second
/// frame and has written the request, once.
pub proof fn lemma_exchanged_answer(
    command: Command,
    request: Seq<u8>,
    before: Record,
    after: Record,
    result: Result<Seq<u8>, ProtocolError>,
    acknowledge: Seq<u8>,
    response: Seq<u8>,
)
    requires
        exchanged(command, request, before, after, result),
        command != Command::GetLastError,
        acknowledge.len() <= FRAME_MAX_DATA_SIZE,
        response.len() <= FRAME_MAX_DATA_SIZE,
        after.read_since(before) == encode(command, acknowledge) + encode(command, response),
    ensures
        result == Ok::<Seq<u8>, ProtocolError>(response),
        after.written_since(before) == request,
        after.quiet_since(before),
{
    lemma_exchange_of_answer(command, acknowledge, response);
}

/// An exchange whose first answer is an error frame returns the error that
/// the device reports, and reads no further. Where the bytes read begin
/// with an error frame, they end with it, and the call has failed with the
/// error of the frame's payload.
pub proof fn lemma_exchanged_error(
    command: Command,
    request: Seq<u8>,
    before: Record,
    after: Record,
    result: Result<Seq<u8>, ProtocolError>,
    report: Seq<u8>,
    more: Seq<u8>,
)
    requires
        exchanged(command, request, before, after, result),
        report.len() <= FRAME_MAX_DATA_SIZE,
        after.read_since(before) == encode(Command::GetLastError, report) + more,
        more.len() < MAX_BYTES_PER_FRAME - FRAME_MAX_SIZE,
    ensures
        result == Err::<Seq<u8>, ProtocolError>(
            ProtocolError::Device { command, code: ErrorCode::of_payload(report) },
        ),
        more.len() == 0,
        after.written_since(before) == request,
{
    lemma_exchange_of_error(command, report, more);
}

/// A flash read whose answers were read succeeds with them. Where the bytes
/// read hold the exchanges of all chunks, each gone well, the call has
/// returned what they gathered, it has read nothing behind them, and it has
/// written the requests of all chunks and no others.
pub proof fn lemma_flash_read_answers(
    addr: u16,
    size: u16,
    before: Record,
    after: Record,
    result: Result<Seq<u8>, ProtocolError>,
)
    requires
        flash_read(addr, size, before, after, result),
        gathered(after.read_since(before), chunk_count(size)) matches Some((Ok(_), _)),
    ensures
        result is Ok,
        gathered(after.read_since(before), chunk_count(size)) == Some(
            (result, Seq::<u8>::empty()),
        ),
        after.written_since(before) == chunk_requests(addr, size, chunk_count(size)),
        after.quiet_since(before),
{
    let read = after.read_since(before);
    if result is Err {
        let done = choose|done: nat|
            done < chunk_count(size) && (#[trigger] gathered(read, done) matches Some(
                (Ok(_), rest),
            ) && !(gathered(read, done + 1) matches Some((Ok(_), _))));
        lemma_gathered_stops(read, done + 1, chunk_count(size));
    }
}

/// Success is owed to a flash read too. A read that met no failure of the
/// transport, and that read fewer bytes than the receiver takes for one
/// frame, was not interrupted: it has succeeded, or it has failed with the
/// failure of the first exchange that failed.
pub proof fn lemma_flash_read_to_the_end(
    addr: u16,
    size: u16,
    before: Record,
    after: Record,
    result: Result<Seq<u8>, ProtocolError>,
)
    requires
        flash_read(addr, size, before, after, result),
        after.quiet_since(before),
        after.read_since(before).len() < MAX_BYTES_PER_FRAME,
    ensures
        !(result matches Err(ProtocolError::Transport(_))),
        !(result matches Err(ProtocolError::NoFrame)),
{
}

/// Checks a frame received in answer to a request.
pub fn validate(request: &Frame, response: &Frame) -> (result: Result<(), ProtocolError>)
    ensures
        match result {
            Ok(_) => checked(request@.command, Ok(response@)) == Ok::<FrameView, ProtocolError>(
                response@,
            ),
            Err(error) => checked(request@.command, Ok(response@)) == Err::<
                FrameView,
                ProtocolError,
            >(error),
        },
{
    if response.is_error() {
        let code = match response.to_error_code() {
            Some(code) => code,
            None => ErrorCode::Unknown,
        };
        return Err(ProtocolError::Device { command: request.cmd(), code });
    }
    if request.cmd() != response.cmd() {
        return Err(
            ProtocolError::UnexpectedCommand { expected: request.cmd(), received: response.cmd() },
        );
    }
    Ok(())
}

/// Whether a call that took a channel's record from `before` to `after`
/// read one answer to `command` with the result `result`: as
/// [`received`](crate::com::received), with the frame checked.
pub open spec fn replied(
    command: Command,
    before: Record,
    after: Record,
    result: Result<FrameView, ProtocolError>,
) -> bool {
    let read = after.read_since(before);
    &&& after.follows(before)
    &&& after.written_since(before).len() == 0
    &&& match result {
        Err(ProtocolError::Transport(failure)) => after.failed_with(
            before,
            Operation::Read,
            failure,
        ) && reply(command, read) is None,
        Err(ProtocolError::NoFrame) => after.quiet_since(before) && reply(command, read) is None
            && read.len() == MAX_BYTES_PER_FRAME,
        _ => after.quiet_since(before) && reply(command, read) == Some(
            (result, Seq::<u8>::empty()),
        ),
    }
}

/// Reads the next frame and checks it as an answer to `request`.
fn receive_reply<C: Channel>(channel: &mut C, request: &Frame) -> (result: Result<
    Frame,
    ProtocolError,
>)
    ensures
        replied(request@.command, old(channel).record(), final(channel).record(), frame_of(result)),
{
    let frame = receive_frame(channel)?;
    validate(request, &frame)?;
    Ok(frame)
}

/// Sends `request` and reads the acknowledge frame and the response frame.
fn converse<C: Channel>(channel: &mut C, request: &Frame) -> (result: Result<
    Vec<u8>,
    ProtocolError,
>)
    ensures
        exchanged(
            request@.command,
            encode(request@.command, request@.payload),
            old(channel).record(),
            final(channel).record(),
            bytes_of(result),
        ),
        result matches Ok(data) ==> data@.len() <= FRAME_MAX_DATA_SIZE,
{
    let command = request.cmd();
    let ghost start = channel.record();
    proof {
        lemma_nothing_since(start);
    }
    match send_frame(request, channel) {
        Ok(_) => {},
        Err(error) => {
            proof {
                lemma_with_failure(start, Operation::Write, error->Transport_0);
            }
            return Err(error);
        },
    }
    let ghost asked = channel.record();
    proof {
        lemma_with_sent(start, encode(command, request@.payload));
    }
    match receive_reply(channel, request) {
        Ok(_) => {},
        Err(error) => {
            proof {
                lemma_since_twice(start, asked, channel.record());
            }
            return Err(error);
        },
    }
    let ghost acknowledged = channel.record();
    let response = receive_reply(channel, request);
    proof {
        let first = acknowledged.read_since(asked);
        let second = channel.record().read_since(acknowledged);
        lemma_since_twice(asked, acknowledged, channel.record());
        lemma_since_twice(start, asked, channel.record());
        lemma_reply_more(command, first, second);
        assert(Seq::<u8>::empty() + second =~= second);
        assert(Seq::<u8>::empty() + (first + second) =~= first + second);
        assert(encode(command, request@.payload) + Seq::<u8>::empty() =~= encode(
            command,
            request@.payload,
        ));
    }
    match response {
        Ok(frame) => Ok(frame.into_data()),
        Err(error) => Err(error),
    }
}

/// Asks for `command` with a payload, which must fit a frame, and returns
/// the payload of the response.
pub fn execute<C: Channel>(channel: &mut C, command: Command, payload: Vec<u8>) -> (result: Result<
    Vec<u8>,
    ProtocolError,
>)
    requires
        payload@.len() <= FRAME_MAX_DATA_SIZE,
    ensures
        exchanged(
            command,
            encode(command, payload@),
            old(channel).record(),
            final(channel).record(),
            bytes_of(result),
        ),
        result matches Ok(data) ==> data@.len() <= FRAME_MAX_DATA_SIZE,
{
    let request = Frame::with_data(command, payload);
    converse(channel, &request)
}

/// Asks for `command` without payload and returns the payload of the
/// response.
pub fn exec_with_result<C: Channel>(channel: &mut C, command: Command) -> (result: Result<
    Vec<u8>,
    ProtocolError,
>)
    ensures
        exchanged(
            command,
            encode(command, Seq::<u8>::empty()),
            old(channel).record(),
            final(channel).record(),
            bytes_of(result),
        ),
        result matches Ok(data) ==> data@.len() <= FRAME_MAX_DATA_SIZE,
{
    let request = Frame::new(command);
    converse(channel, &request)
}

/// Asks for `command` without payload and waits for the acknowledge frame
/// alone: for commands that the device does not answer with a result.
pub fn exec<C: Channel>(channel: &mut C, command: Command) -> (result: Result<(), ProtocolError>)
    ensures
        acknowledged(
            command,
            encode(command, Seq::<u8>::empty()),
            old(channel).record(),
            final(channel).record(),
            result,
        ),
{
    let request = Frame::new(command);
    let ghost start = channel.record();
    proof {
        lemma_nothing_since(start);
    }
    match send_frame(&request, channel) {
        Ok(_) => {},
        Err(error) => {
            proof {
                lemma_with_failure(start, Operation::Write, error->Transport_0);
            }
            return Err(error);
        },
    }
    let ghost asked = channel.record();
    proof {
        lemma_with_sent(start, encode(command, Seq::<u8>::empty()));
    }
    let reply = receive_reply(channel, &request);
    proof {
        lemma_since_twice(start, asked, channel.record());
        assert(Seq::<u8>::empty() + channel.record().read_since(asked)
            =~= channel.record().read_since(asked));
        assert(encode(command, Seq::<u8>::empty()) + Seq::<u8>::empty() =~= encode(
            command,
            Seq::<u8>::empty(),
        ));
    }
    match reply {
        Ok(_) => Ok(()),
        Err(error) => Err(error),
    }
}

/// std's `String::from_utf8`, with the error reduced to `None`. The standard
/// library documents that the call succeeds exactly on valid UTF-8 and that
/// the string then holds the characters that the bytes encode.
#[verifier::external_body]
fn string_from_utf8(bytes: Vec<u8>) -> (text: Option<String>)
    ensures
        match text {
            Some(text) => valid_utf8(bytes@) && text@ == decode_utf8(bytes@),
            None => !valid_utf8(bytes@),
        },
{
    String::from_utf8(bytes).ok()
}

/// A payload as text.
pub fn text_of_payload(payload: Vec<u8>) -> (result: Result<String, ProtocolError>)
    ensures
        match result {
            Ok(text) => payload_text(payload@) == Ok::<Seq<char>, ProtocolError>(text@),
            Err(error) => payload_text(payload@) == Err::<Seq<char>, ProtocolError>(error),
        },
{
    match string_from_utf8(payload) {
        Some(text) => Ok(text),
        None => Err(ProtocolError::InvalidUtf8),
    }
}

/// The first four bytes of a payload as a big-endian 32-bit value.
pub fn u32_of_payload(payload: &[u8]) -> (result: Result<u32, ProtocolError>)
    ensures
        result == payload_u32(payload@),
{
    let mut parser = ByteArrayParser::new(payload);
    parser.take_u32()
}

/// The first two bytes of a payload as a big-endian 16-bit value.
pub fn u16_of_payload(payload: &[u8]) -> (result: Result<u16, ProtocolError>)
    ensures
        result == payload_u16(payload@),
{
    let mut parser = ByteArrayParser::new(payload);
    parser.take_u16()
}

/// Asks for `command` and returns the response as text.
pub fn get_string<C: Channel>(channel: &mut C, command: Command) -> (result: Result<
    String,
    ProtocolError,
>)
    ensures
        answered(
            command,
            encode(command, Seq::<u8>::empty()),
            old(channel).record(),
            final(channel).record(),
            text_of(result),
            |payload: Seq<u8>| payload_text(payload),
        ),
{
    let payload = exec_with_result(channel, command)?;
    text_of_payload(payload)
}

/// Asks for `command` and returns the response as a big-endian 32-bit
/// value.
pub fn get_u32<C: Channel>(channel: &mut C, command: Command) -> (result: Result<
    u32,
    ProtocolError,
>)
    ensures
        answered(
            command,
            encode(command, Seq::<u8>::empty()),
            old(channel).record(),
            final(channel).record(),
            result,
            |payload: Seq<u8>| payload_u32(payload),
        ),
{
    let payload = exec_with_result(channel, command)?;
    u32_of_payload(payload.as_slice())
}

/// Asks for `command` and returns the response as a big-endian 16-bit
/// value.
pub fn get_u16<C: Channel>(channel: &mut C, command: Command) -> (result: Result<
    u16,
    ProtocolError,
>)
    ensures
        answered(
            command,
            encode(command, Seq::<u8>::empty()),
            old(channel).record(),
            final(channel).record(),
            result,
            |payload: Seq<u8>| payload_u16(payload),
        ),
{
    let payload = exec_with_result(channel, command)?;
    u16_of_payload(payload.as_slice())
}

/// Whether a call that took a channel's record from `before` to `after` read
/// `size` bytes of flash from `addr` on with the result `result`.
///
/// A call that succeeds has written the requests of all chunks and read as
/// many exchanges, to the last byte; its result is what they gathered. A call
/// that fails has carried out `done` exchanges that went well, and failed in
/// the next one: its result is the failure of that exchange, and it has
/// written the requests of the chunks up to that one and no others. Where
/// the write of that one's request failed, the request is not among them,
/// and nothing was read behind the exchanges that went well. Where a read
/// failed, or the call gave up for want of a frame, that exchange was not
/// read to its end; a call that gave up has read as many bytes as the
/// receiver takes for one frame, or more.
pub open spec fn flash_read(
    addr: u16,
    size: u16,
    before: Record,
    after: Record,
    result: Result<Seq<u8>, ProtocolError>,
) -> bool {
    let read = after.read_since(before);
    let written = after.written_since(before);
    &&& after.follows(before)
    &&& match result {
        Ok(data) => after.quiet_since(before) && written == chunk_requests(
            addr,
            size,
            chunk_count(size),
        ) && gathered(read, chunk_count(size)) == Some((result, Seq::<u8>::empty())),
        Err(error) => exists|done: nat|
            done < chunk_count(size) && (#[trigger] gathered(read, done) matches Some(
                (Ok(_), rest),
            ) && match error {
                ProtocolError::Transport(failure) => gathered(read, done + 1) is None && (
                if rest.len() == 0 && written == chunk_requests(addr, size, done) {
                    after.failed_with(before, Operation::Write, failure)
                } else {
                    after.failed_with(before, Operation::Read, failure) && written
                        == chunk_requests(addr, size, done + 1)
                }),
                ProtocolError::NoFrame => after.quiet_since(before) && gathered(read, done + 1)
                    is None && written == chunk_requests(addr, size, done + 1) && read.len()
                    >= MAX_BYTES_PER_FRAME,
                _ => after.quiet_since(before) && gathered(read, done + 1) == Some(
                    (result, Seq::<u8>::empty()),
                ) && written == chunk_requests(addr, size, done + 1),
            }),
    }
}

/// One more exchange behind a run of exchanges that went well: the run is
/// one exchange longer, and what the exchange gives is what the run gives.
pub proof fn lemma_gathered_step(read: Seq<u8>, step: Seq<u8>, index: nat, data: Seq<u8>)
    requires
        gathered(read, index) == Some((Ok::<Seq<u8>, ProtocolError>(data), Seq::<u8>::empty())),
    ensures
        gathered(read + step, index + 1) == match exchange(Command::FlashRead, step) {
            Some((Ok(more), rest)) => Some((Ok::<Seq<u8>, ProtocolError>(data + more), rest)),
            Some((Err(error), rest)) => Some((Err::<Seq<u8>, ProtocolError>(error), rest)),
            None => None,
        },
{
    lemma_gathered_more(read, step, index);
    assert(Seq::<u8>::empty() + step =~= step);
    assert((index + 1 - 1) as nat == index);
}

/// The number of bytes that the first `count` chunks of a read ask for.
pub open spec fn asked(size: u16, count: nat) -> nat
    decreases count,
{
    if count == 0 {
        0
    } else {
        asked(size, (count - 1) as nat) + chunk_length(size, (count - 1) as nat) as nat
    }
}

/// The payload that exchange `index` of a run of flash-read exchanges
/// returns; nothing where the run does not get that far.
pub open spec fn answer(stream: Seq<u8>, index: nat) -> Seq<u8> {
    match gathered(stream, index) {
        Some((Ok(_), rest)) => match exchange(Command::FlashRead, rest) {
            Some((Ok(data), _)) => data,
            _ => Seq::<u8>::empty(),
        },
        _ => Seq::<u8>::empty(),
    }
}

/// Chunking arithmetic. Chunk `index` of a read asks for 255 bytes, or for
/// what remains where less remains, and never for nothing; what it asks for
/// no longer remains for the chunk behind it. The first chunk starts where
/// the read starts, and every other chunk where the chunk before it ends: as
/// long as the read stays within the 16-bit address space, the addresses
/// grow strictly, each by the size of the chunk before.
pub proof fn lemma_chunking(addr: u16, size: u16, index: nat)
    requires
        index < chunk_count(size),
    ensures
        chunk_length(size, index) == min(remaining(size, index), 255),
        chunk_length(size, index) > 0,
        remaining(size, index + 1) == remaining(size, index) - chunk_length(size, index)
            || index + 1 == chunk_count(size),
        chunk_pointer(addr, 0) == addr,
        index + 1 < chunk_count(size) ==> chunk_pointer(addr, index + 1) == (chunk_pointer(
            addr,
            index,
        ) + chunk_length(size, index)) % 0x1_0000,
        index + 1 < chunk_count(size) && addr + size <= 0x1_0000 ==> chunk_pointer(addr, index)
            < chunk_pointer(addr, index + 1) && chunk_pointer(addr, index + 1) == chunk_pointer(
            addr,
            index,
        ) + chunk_length(size, index),
{
}

/// The number of chunks is the least number of chunks of 255 bytes that
/// hold `size` bytes: none for nothing, and `size / 255` rounded up.
pub proof fn lemma_chunk_count(size: u16)
    ensures
        chunk_count(size) == 0 <==> size == 0,
        size <= 255 * chunk_count(size),
        size > 0 ==> 255 * (chunk_count(size) - 1) < size,
{
}

/// The chunks of a read ask for `size` bytes between them: the first `count`
/// chunks ask for 255 bytes each, but for the last, which asks for what
/// remains.
pub proof fn lemma_asked(size: u16, count: nat)
    requires
        count <= chunk_count(size),
    ensures
        asked(size, count) == if count == chunk_count(size) {
            size as nat
        } else {
            255 * count
        },
    decreases count,
{
    if count > 0 {
        lemma_asked(size, (count - 1) as nat);
    }
}

/// A read whose every exchange returns as many bytes as its chunk asks for
/// returns as many bytes as the chunks ask for between them.
pub proof fn lemma_gathered_length(size: u16, stream: Seq<u8>, count: nat)
    requires
        gathered(stream, count) matches Some((Ok(_), _)),
        forall|i: nat| i < count ==> #[trigger] answer(stream, i).len() == chunk_length(size, i),
    ensures
        gathered(stream, count) matches Some((Ok(data), _)) && data.len() == asked(size, count),
    decreases count,
{
    if count > 0 {
        let before = (count - 1) as nat;
        assert(answer(stream, before).len() == chunk_length(size, before));
        lemma_gathered_length(size, stream, before);
    }
}

/// A read of `size` bytes that succeeds, and whose every exchange returns as
/// many bytes as its chunk asks for, returns exactly `size` bytes.
pub proof fn lemma_flash_read_length(
    addr: u16,
    size: u16,
    before: Record,
    after: Record,
    data: Seq<u8>,
)
    requires
        flash_read(addr, size, before, after, Ok(data)),
        forall|i: nat|
            i < chunk_count(size) ==> #[trigger] answer(after.read_since(before), i).len()
                == chunk_length(size, i),
    ensures
        data.len() == size,
{
    lemma_gathered_length(size, after.read_since(before), chunk_count(size));
    lemma_asked(size, chunk_count(size));
}

/// While bytes remain, the next chunk is no chunk too many, and it is the
/// last one where it takes all that remains.
proof fn lemma_chunk_step(addr: u16, size: u16, index: nat)
    requires
        255 * index < size,
    ensures
        index < chunk_count(size),
        chunk_pointer(addr, index + 1) == (chunk_pointer(addr, index) + 255) % 0x1_0000,
        255 * (index + 1) >= size ==> index + 1 == chunk_count(size),
{
}

/// Asks for one chunk of flash.
fn read_chunk<C: Channel>(channel: &mut C, pointer: u16, chunk_size: u16) -> (result: Result<
    Vec<u8>,
    ProtocolError,
>)
    ensures
        exchanged(
            Command::FlashRead,
            encode(Command::FlashRead, chunk_payload(pointer, chunk_size)),
            old(channel).record(),
            final(channel).record(),
            bytes_of(result),
        ),
{
    let (pointer_high, pointer_low) = u16_to_be(pointer);
    let (size_high, size_low) = u16_to_be(chunk_size);
    let mut data: Vec<u8> = Vec::new();
    data.push(pointer_high);
    data.push(pointer_low);
    data.push(size_high);
    data.push(size_low);
    proof {
        assert(data@ =~= chunk_payload(pointer, chunk_size));
    }
    execute(channel, Command::FlashRead, data)
}

/// Reads `size` bytes of flash from `addr` on, chunk by chunk, and returns
/// them in address order. The first chunk that fails fails the read.
pub fn read_flash<C: Channel>(channel: &mut C, addr: u16, size: u16) -> (result: Result<
    Vec<u8>,
    ProtocolError,
>)
    ensures
        flash_read(addr, size, old(channel).record(), final(channel).record(), bytes_of(result)),
{
    let mut pointer: u16 = addr;
    let mut remains: u16 = size;
    let mut buffer: Vec<u8> = Vec::new();
    let ghost mut index: nat = 0;
    let ghost start = channel.record();
    proof {
        lemma_nothing_since(start);
    }
    while remains > 0
        invariant
            start == old(channel).record(),
            channel.record().quiet_since(start),
            remains > 0 ==> remains == remaining(size, index),
            index <= chunk_count(size),
            remains == 0 ==> index == chunk_count(size),
            remains > 0 ==> pointer == chunk_pointer(addr, index),
            channel.record().written_since(start) == chunk_requests(addr, size, index),
            gathered(channel.record().read_since(start), index) == Some(
                (Ok::<Seq<u8>, ProtocolError>(buffer@), Seq::<u8>::empty()),
            ),
        decreases remains,
    {
        let chunk_size: u16 = if remains > FLASH_CHUNK_SIZE {
            FLASH_CHUNK_SIZE
        } else {
            remains
        };
        let ghost before = channel.record();
        let ghost written = before.written_since(start);
        let ghost read = before.read_since(start);
        let ghost gathered_before = buffer@;
        proof {
            lemma_chunk_step(addr, size, index);
            lemma_chunking(addr, size, index);
        }
        let response = read_chunk(channel, pointer, chunk_size);
        let ghost step = channel.record().read_since(before);
        let ghost request = channel.record().written_since(before);
        proof {
            lemma_since_twice(start, before, channel.record());
            lemma_gathered_step(read, step, index, gathered_before);
            assert(request == chunk_request(addr, size, index) ==> written + request
                == chunk_requests(addr, size, index + 1));
            assert(request.len() == 0 ==> written + request =~= written);
            assert(step.len() == 0 ==> read + step =~= read);
        }
        match response {
            Ok(bytes) => {
                append(&mut buffer, bytes.as_slice());
            },
            Err(error) => {
                proof {
                    lemma_gathered_more(read, step, index);
                    assert(gathered(read + step, index) matches Some((Ok(_), rest)) && rest
                        == step);
                }
                return Err(error);
            },
        }
        remains -= chunk_size;
        pointer = ((pointer as u32 + chunk_size as u32) % 0x1_0000) as u16;
        proof {
            index = index + 1;
        }
    }
    Ok(buffer)
}

} // verus!
