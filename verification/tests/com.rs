use sa430::channel::fixtures::MockChannel;
use sa430::channel::fixtures::END_OF_INPUT;
use sa430::channel::Channel;
use sa430::channel::Recorded;
use sa430::channel::SHORT_READ;
use sa430::channel::Transport;
use sa430::channel::TransportError;
use sa430::com::read;
use sa430::com::receive_frame;
use sa430::com::send_frame;
use sa430::com::Receiver;
use sa430::com::ReceiverState;
use sa430::error::ProtocolError;
use sa430::frame::Command;
use sa430::frame::Frame;
use sa430::frame::FrameError;

#[test]
fn com_given_a_frame_when_send_frame_then_send_frame_to_port() {
    let frame = Frame::with_data(Command::SetGain, vec![0x00, 0x01]);
    let mut port = MockChannel::new();
    send_frame(&frame, &mut port).unwrap();
    assert_eq!(port.write_buffer, vec![0x2a, 0x02, 0x1B, 0x00, 0x01, 0x0F, 0xDC]);
}

#[test]
fn com_given_a_frame_when_receive_frame_then_receive_frame_from_port() {
    let frame = Frame::with_data(Command::SetGain, vec![0x00, 0x01]);
    let mut port = MockChannel::new();
    port.add_response(&frame.to_bytes());
    let received_frame = receive_frame(&mut port).unwrap();
    assert_eq!(frame, received_frame);
}

#[test]
fn com_given_a_frame_with_no_data_when_receive_frame_then_receive_frame_from_port() {
    let frame = Frame::with_data(Command::BlinkLed, vec![]);
    let mut port = MockChannel::new();
    port.add_response(&frame.to_bytes());
    let received_frame = receive_frame(&mut port).unwrap();
    assert_eq!(frame, received_frame);
}

#[test]
fn com_given_a_frame_when_receive_frame_then_receive_frame_from_port_with_extra_bytes() {
    let frame = Frame::with_data(Command::SetGain, vec![0x00, 0x01]);
    let mut port = MockChannel::new();
    port.add_response(&[0x00, 0x00, 0x00]);
    port.add_response(&frame.to_bytes());
    let received_frame = receive_frame(&mut port).unwrap();
    assert_eq!(frame, received_frame);
}

#[test]
fn given_a_frame_with_error_when_receive_frame_then_receive_frame_from_port() {
    let mut port = MockChannel::new();
    port.add_response(&[0x2A, 0x00, 0x00, 0x00, 0x01]);
    let result = receive_frame(&mut port);
    assert_eq!(result.is_err(), true);
    assert_eq!(
        result.err().unwrap().to_string(),
        "Invalid CRC, expected: 0x0001, current: 0x8528"
    );
}

#[test]
fn the_receiver_stops_with_the_last_byte_of_the_frame() {
    let frame = Frame::with_data(Command::SetGain, vec![0x00, 0x01]);
    let mut port = MockChannel::new();
    port.add_response(&[0x11, 0x22]);
    port.add_response(&frame.to_bytes());
    port.add_response(&[0x33, 0x2A, 0x44]);
    assert_eq!(receive_frame(&mut port).unwrap(), frame);
    assert_eq!(port.read_buffer, vec![0x33, 0x2A, 0x44]);
    assert_eq!(port.write_buffer, vec![]);
}

#[test]
fn frames_are_received_one_after_the_other() {
    let first = Frame::new(Command::GetIdn);
    let second = Frame::with_data(Command::GetIdn, vec![0x2A, 0x2A, 0x2A]);
    let mut port = MockChannel::new();
    port.add_response(&first.to_bytes());
    port.add_response(&[0x00]);
    port.add_response(&second.to_bytes());
    assert_eq!(receive_frame(&mut port).unwrap(), first);
    assert_eq!(receive_frame(&mut port).unwrap(), second);
    assert!(port.read_buffer.is_empty());
}

#[test]
fn the_transport_failing_before_the_frame_is_whole_fails_the_read() {
    let bytes = Frame::with_data(Command::SetGain, vec![0x00, 0x01]).to_bytes();
    for length in 0..bytes.len() {
        let mut port = MockChannel::new();
        port.add_response(&bytes[..length]);
        match receive_frame(&mut port) {
            Err(ProtocolError::Transport(error)) => {
                assert_eq!(error.message(), "failed to fill whole buffer")
            }
            other => panic!("{} bytes: {:?}", length, other),
        }
        assert!(port.read_buffer.is_empty());
    }
}

#[test]
fn noise_without_a_magic_byte_is_thrown_away() {
    let mut port = MockChannel::new();
    port.add_response(&[0x00, 0x01, 0x29, 0x2B, 0xFF]);
    assert!(matches!(
        receive_frame(&mut port),
        Err(ProtocolError::Transport(_))
    ));
    assert!(port.read_buffer.is_empty());
}

#[test]
fn a_frame_corrupted_on_the_way_is_not_resynchronised() {
    let mut bytes = Frame::with_data(Command::SetGain, vec![0x00, 0x01]).to_bytes();
    bytes[3] = 0x2A;
    let mut port = MockChannel::new();
    port.add_response(&bytes);
    match receive_frame(&mut port) {
        Err(ProtocolError::Frame(FrameError::InvalidCrc(field, computed))) => {
            assert_eq!(field, 0x0FDC);
            assert_ne!(computed, 0x0FDC);
        }
        other => panic!("{:?}", other),
    }
}

#[test]
fn a_magic_byte_in_the_noise_opens_a_candidate() {
    let frame = Frame::with_data(Command::SetGain, vec![0x00, 0x01]);
    let mut port = MockChannel::new();
    port.add_response(&[0x2A]);
    port.add_response(&frame.to_bytes());
    // The stray magic byte opens a candidate whose length byte is the
    // frame's magic byte: 0x2A bytes of payload, more than the port holds.
    assert!(matches!(
        receive_frame(&mut port),
        Err(ProtocolError::Transport(_))
    ));
}

#[test]
fn one_byte_is_read_at_a_time() {
    let mut port = MockChannel::new();
    port.add_response(&[0x12, 0x34]);
    assert_eq!(read(&mut port).unwrap(), 0x12);
    assert_eq!(read(&mut port).unwrap(), 0x34);
    assert!(matches!(read(&mut port), Err(ProtocolError::Transport(_))));
}

#[test]
fn the_receiver_walks_through_its_states() {
    let mut receiver = Receiver::new();
    assert_eq!(receiver.state(), ReceiverState::Seeking);
    assert_eq!(receiver.push(0x00), None);
    assert_eq!(receiver.state(), ReceiverState::Seeking);
    assert_eq!(receiver.push(0x2A), None);
    assert_eq!(receiver.state(), ReceiverState::Length);
    assert_eq!(receiver.push(0x02), None);
    assert_eq!(receiver.state(), ReceiverState::Command);
    assert_eq!(receiver.push(0x1B), None);
    assert_eq!(receiver.state(), ReceiverState::Data);
    assert_eq!(receiver.push(0x00), None);
    assert_eq!(receiver.state(), ReceiverState::Data);
    assert_eq!(receiver.push(0x01), None);
    assert_eq!(receiver.state(), ReceiverState::CrcHigh);
    assert_eq!(receiver.push(0x0F), None);
    assert_eq!(receiver.state(), ReceiverState::CrcLow);
    assert_eq!(
        receiver.push(0xDC),
        Some(Ok(Frame::with_data(Command::SetGain, vec![0x00, 0x01])))
    );
    assert_eq!(receiver.state(), ReceiverState::Seeking);
}

#[test]
fn the_receiver_skips_the_payload_of_a_frame_without_one() {
    let mut receiver = Receiver::new();
    assert_eq!(receiver.push(0x2A), None);
    assert_eq!(receiver.push(0x00), None);
    assert_eq!(receiver.state(), ReceiverState::Command);
    assert_eq!(receiver.push(0x01), None);
    assert_eq!(receiver.state(), ReceiverState::CrcHigh);
    assert_eq!(receiver.push(0x95), None);
    assert_eq!(receiver.state(), ReceiverState::CrcLow);
    assert_eq!(receiver.push(0x09), Some(Ok(Frame::new(Command::GetIdn))));
}

#[test]
fn the_receiver_takes_the_longest_frame() {
    let frame = Frame::with_data(Command::FlashRead, vec![0x5A; 255]);
    let mut receiver = Receiver::new();
    let bytes = frame.to_bytes();
    assert_eq!(bytes.len(), 260);
    for byte in &bytes[..259] {
        assert_eq!(receiver.push(*byte), None);
    }
    assert_eq!(receiver.state(), ReceiverState::CrcLow);
    assert_eq!(receiver.push(bytes[259]), Some(Ok(frame)));
}

#[test]
fn the_receiver_hands_out_the_error_of_a_candidate_that_is_no_frame() {
    let mut receiver = Receiver::new();
    for byte in [0x2A, 0x00, 0x00, 0x00] {
        assert_eq!(receiver.push(byte), None);
    }
    assert_eq!(
        receiver.push(0x01),
        Some(Err(FrameError::InvalidCrc(0x0001, 0x8528)))
    );
    assert_eq!(receiver.state(), ReceiverState::Seeking);
}

struct BrokenPort;

impl Transport for BrokenPort {
    fn read_exact(&mut self, _count: usize) -> Result<Vec<u8>, TransportError> {
        Err(TransportError::new("Operation timed out"))
    }

    fn write_all(&mut self, _bytes: &[u8]) -> Result<(), TransportError> {
        Err(TransportError::new("Broken pipe"))
    }
}

#[test]
fn the_failure_of_the_transport_is_passed_on_as_it_came() {
    let mut channel = Recorded::new(BrokenPort);
    let frame = Frame::new(Command::GetIdn);
    let sent = send_frame(&frame, &mut channel);
    assert_eq!(
        sent,
        Err(ProtocolError::Transport(TransportError::new("Broken pipe")))
    );
    assert_eq!(sent.unwrap_err().to_string(), "Broken pipe");
    let received = receive_frame(&mut channel);
    assert_eq!(received.unwrap_err().to_string(), "Operation timed out");
}

struct LoopBack {
    bytes: Vec<u8>,
}

impl Transport for LoopBack {
    fn read_exact(&mut self, count: usize) -> Result<Vec<u8>, TransportError> {
        if self.bytes.len() < count {
            return Err(TransportError::new("nothing to read"));
        }
        Ok(self.bytes.drain(..count).collect())
    }

    fn write_all(&mut self, bytes: &[u8]) -> Result<(), TransportError> {
        self.bytes.extend_from_slice(bytes);
        Ok(())
    }
}

#[test]
fn a_frame_goes_over_a_recorded_transport_and_comes_back() {
    let mut channel = Recorded::new(LoopBack { bytes: vec![0x00, 0xFF] });
    let frame = Frame::with_data(Command::SetGain, vec![0x00, 0x01]);
    send_frame(&frame, &mut channel).unwrap();
    assert_eq!(receive_frame(&mut channel).unwrap(), frame);
    assert!(channel.into_inner().bytes.is_empty());
}

struct ShortPort;

impl Transport for ShortPort {
    fn read_exact(&mut self, _count: usize) -> Result<Vec<u8>, TransportError> {
        Ok(vec![])
    }

    fn write_all(&mut self, _bytes: &[u8]) -> Result<(), TransportError> {
        Ok(())
    }
}

#[test]
fn a_transport_that_reads_short_has_failed() {
    let mut channel = Recorded::new(ShortPort);
    assert_eq!(
        channel.read_exact(1),
        Err(TransportError::new(SHORT_READ))
    );
    assert_eq!(
        SHORT_READ,
        "the transport read another number of bytes than asked"
    );
    assert_eq!(channel.read_exact(0).unwrap(), vec![]);
    assert!(matches!(
        receive_frame(&mut channel),
        Err(ProtocolError::Transport(_))
    ));
}

#[test]
fn the_mock_channel_reads_what_was_queued_and_keeps_what_was_written() {
    let mut channel = MockChannel::new();
    channel.add_response(&[1, 2, 3]);
    channel.add_response(&[4]);
    assert_eq!(channel.read_exact(0).unwrap(), vec![]);
    assert_eq!(channel.read_exact(3).unwrap(), vec![1, 2, 3]);
    assert_eq!(
        channel.read_exact(2),
        Err(TransportError::new(END_OF_INPUT))
    );
    assert_eq!(END_OF_INPUT, "failed to fill whole buffer");
    assert_eq!(channel.read_buffer, vec![4]);
    assert_eq!(channel.read_exact(1).unwrap(), vec![4]);
    channel.write_all(&[9, 8]).unwrap();
    channel.write_all(&[7]).unwrap();
    assert_eq!(channel.write_buffer, vec![9, 8, 7]);
}
