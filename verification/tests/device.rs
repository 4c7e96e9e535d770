use sa430::channel::fixtures::MockChannel;
use sa430::device::Calibration;
use sa430::device::FrequencyGain;
use sa430::device::FrequencyRange;
use sa430::device::ProgHeader;
use sa430::device::RefLevel;
use sa430::device::Sa430;
use sa430::device::FLASH_CALIBRATION_ADDR;
use sa430::device::FLASH_CALIBRATION_SIZE;
use sa430::device::FLASH_PROG_HEADER_ADDR;
use sa430::device::FLASH_PROG_HEADER_SIZE;
use sa430::device::FLASH_PROG_HEADER_TYPE;
use sa430::error::ProtocolError;
use sa430::frame::Command;
use sa430::frame::ErrorCode;
use sa430::frame::Frame;

fn an_ack_response(cmd: Command) -> Frame {
    Frame::new(cmd)
}

fn a_response(cmd: Command, data: &[u8]) -> Frame {
    Frame::with_data(cmd, data.to_vec())
}

fn a_prog_header(mem_type: u16) -> Vec<u8> {
    let mut bytes = Vec::new();
    bytes.extend(0xD40Au16.to_le_bytes());
    bytes.extend(0x0687u16.to_le_bytes());
    bytes.extend(mem_type.to_le_bytes());
    bytes.extend(0x0001u16.to_le_bytes());
    bytes.extend(0xBEEFu16.to_le_bytes());
    bytes
}

fn a_gain(range: usize, level: usize, index: usize) -> f64 {
    -35.0 - 5.0 * level as f64 + 0.25 * range as f64 + 0.001 * index as f64
}

fn a_calibration_blob() -> Vec<u8> {
    let mut bytes = Vec::new();
    bytes.extend(0x0110u16.to_be_bytes());
    bytes.extend(b"Mo. Sep 19 2011\0");
    bytes.extend(0x0203u16.to_be_bytes());
    bytes.push(0x07);
    for range in 0..3u32 {
        bytes.extend((300_000_000 + range).to_be_bytes());
        bytes.extend((348_000_000 + range).to_be_bytes());
        bytes.extend((1000 * (range + 1)).to_be_bytes());
    }
    for level in 0..8u8 {
        bytes.push(35 + 5 * level);
        bytes.push(0x10 + level);
    }
    bytes.extend(0x12345678u32.to_be_bytes());
    bytes.extend(b"08FF41E50F8B3A34");
    bytes.extend(26_000_000u32.to_be_bytes());
    bytes.extend(0x0014u16.to_be_bytes());
    bytes.extend(b"+25.0C");
    bytes.extend(b"+26.5C");
    for range in 0..3 {
        for level in 0..8 {
            bytes.push(level as u8);
            for index in 0..8 {
                bytes.extend(a_gain(range, level, index).to_be_bytes());
            }
        }
    }
    assert_eq!(bytes.len(), 0x0687);
    bytes
}

fn add_flash(channel: &mut MockChannel, data: &[u8]) {
    for chunk in data.chunks(255) {
        channel.add_response(&an_ack_response(Command::FlashRead).to_bytes());
        channel.add_response(&a_response(Command::FlashRead, chunk).to_bytes());
    }
}

fn a_calibrated_channel() -> MockChannel {
    let mut channel = MockChannel::new();
    add_flash(&mut channel, &a_prog_header(0x003E));
    add_flash(&mut channel, &a_calibration_blob());
    channel
}

fn requests_of(written: &[u8]) -> Vec<(u16, u16)> {
    written
        .chunks(9)
        .map(|bytes| {
            let frame = Frame::from_bytes(bytes).unwrap();
            assert_eq!(frame.cmd(), Command::FlashRead);
            let data = frame.data();
            (
                u16::from_be_bytes([data[0], data[1]]),
                u16::from_be_bytes([data[2], data[3]]),
            )
        })
        .collect()
}

#[test]
fn the_flash_map_is_that_of_the_device() {
    assert_eq!(FLASH_PROG_HEADER_ADDR, 0xD400);
    assert_eq!(FLASH_PROG_HEADER_SIZE, 0x000A);
    assert_eq!(FLASH_PROG_HEADER_TYPE, 0x003E);
    assert_eq!(FLASH_CALIBRATION_ADDR, 0xD40A);
    assert_eq!(FLASH_CALIBRATION_SIZE, 0x0687);
}

#[test]
fn the_record_is_decoded_field_by_field() {
    let record = Calibration::from_bytes(&a_calibration_blob()).unwrap();

    assert_eq!(record.format_version, 0x0110);
    assert_eq!(&record.calibration_date, b"Mo. Sep 19 2011\0");
    assert_eq!(record.software_version, 0x0203);
    assert_eq!(record.production_side, 0x07);
    for range in 0..3 {
        assert_eq!(
            record.frq_ranges[range],
            FrequencyRange {
                f_start: 300_000_000 + range as u32,
                f_stop: 348_000_000 + range as u32,
                samples: 1000 * (range as u32 + 1),
            }
        );
    }
    for level in 0..8 {
        assert_eq!(
            record.ref_levels[level],
            RefLevel { value: 35 + 5 * level as u8, gain: 0x10 + level as u8 }
        );
    }
    assert_eq!(record.hardware_id, 0x12345678);
    assert_eq!(&record.serial_number, b"08FF41E50F8B3A34");
    assert_eq!(record.xtal_freq_hz, 26_000_000);
    assert_eq!(record.xtal_freq_error_ppm, 20);
    assert_eq!(&record.calibration_temperature_start, b"+25.0C");
    assert_eq!(&record.calibration_temperature_stop, b"+26.5C");
    for range in 0..3 {
        for level in 0..8 {
            let entry = &record.frq_gains_tables[range][level];
            assert_eq!(entry.ref_level_index, level as u8);
            for index in 0..8 {
                assert_eq!(
                    f64::from_bits(entry.gain_bits[index]),
                    a_gain(range, level, index)
                );
            }
        }
    }
}

#[test]
fn a_record_is_not_decoded_from_fewer_bytes_than_it_takes() {
    let blob = a_calibration_blob();
    for length in [0, 1, 2, 17, 20, 21, 56, 57, 72, 76, 110, 111, 175, 1670] {
        assert_eq!(
            Calibration::from_bytes(&blob[..length]),
            Err(ProtocolError::OutOfBounds)
        );
    }
}

#[test]
fn a_record_is_tried_from_bytes() {
    let blob = a_calibration_blob();
    assert_eq!(
        Calibration::try_from(blob.as_slice()),
        Calibration::from_bytes(&blob)
    );
    assert_eq!(
        Calibration::try_from(&blob[..100]),
        Err(ProtocolError::OutOfBounds)
    );
    assert_ne!(Calibration::try_from(blob.as_slice()), Ok(Calibration::default()));
}

#[test]
fn bytes_behind_the_record_are_not_looked_at() {
    let mut blob = a_calibration_blob();
    let record = Calibration::from_bytes(&blob).unwrap();
    blob.extend([0xFF; 9]);
    assert_eq!(Calibration::from_bytes(&blob), Ok(record));
}

#[test]
fn the_blank_records_hold_zeros() {
    let record = Calibration::default();
    assert_eq!(record.hardware_id, 0);
    assert_eq!(record.serial_number, [0; 16]);
    assert_eq!(record.calibration_date, [0; 16]);
    assert_eq!(record.calibration_temperature_start, [0; 6]);
    assert_eq!(record.ref_levels, [RefLevel::default(); 8]);
    assert_eq!(record.frq_ranges, [FrequencyRange::default(); 3]);
    assert_eq!(record.frq_gains_tables, [[FrequencyGain::default(); 8]; 3]);
    assert_eq!(FrequencyGain::default().gain_bits, [0; 8]);
    assert_eq!(RefLevel::default(), RefLevel { value: 0, gain: 0 });
    assert_eq!(
        FrequencyRange::default(),
        FrequencyRange { f_start: 0, f_stop: 0, samples: 0 }
    );
    assert_eq!(ProgHeader::default().mem_type, 0);
}

#[test]
fn a_frequency_range_is_three_big_endian_values() {
    let range = FrequencyRange::from(&[
        0x00, 0x00, 0x00, 0x01, 0x10, 0x20, 0x30, 0x40, 0xFF, 0xFF, 0xFF, 0xFF,
    ]);
    assert_eq!(
        range,
        FrequencyRange { f_start: 1, f_stop: 0x10203040, samples: u32::MAX }
    );
}

#[test]
fn a_reference_level_is_a_value_and_a_gain() {
    assert_eq!(RefLevel::from(&[0x23, 0x45]), RefLevel { value: 0x23, gain: 0x45 });
}

#[test]
fn a_gains_entry_is_an_index_and_eight_doubles() {
    let gains = [1.5f64, -2.25, 0.0, 1e-9, -70.0, 35.125, f64::MAX, f64::MIN_POSITIVE];
    let mut bytes = [0u8; 65];
    bytes[0] = 5;
    for (index, gain) in gains.iter().enumerate() {
        bytes[1 + 8 * index..9 + 8 * index].copy_from_slice(&gain.to_be_bytes());
    }

    let entry = FrequencyGain::from(&bytes);

    assert_eq!(entry.ref_level_index, 5);
    assert_eq!(entry.gain_bits, gains.map(f64::to_bits));
    assert_eq!(entry.gain_bits[0], 0x3FF8_0000_0000_0000);
}

#[test]
fn the_program_header_is_five_little_endian_values() {
    let header =
        ProgHeader::from_bytes(&[0x0A, 0xD4, 0x87, 0x06, 0x3E, 0x00, 0x01, 0x00, 0xEF, 0xBE])
            .unwrap();
    assert_eq!(
        header,
        ProgHeader {
            mem_start_address: 0xD40A,
            mem_length: 0x0687,
            mem_type: 0x003E,
            type_version: 0x0001,
            crc: 0xBEEF,
        }
    );
    assert_eq!(
        ProgHeader::from_bytes(&[0x0A, 0xD4, 0x87, 0x06, 0x3E, 0x00, 0x01, 0x00, 0xEF]),
        Err(ProtocolError::OutOfBounds)
    );
}

#[test]
fn the_device_identifies_itself() {
    let mut channel = MockChannel::new();
    channel.add_response(&an_ack_response(Command::GetIdn).to_bytes());
    channel.add_response(
        &a_response(
            Command::GetIdn,
            b"Texas Instruments,MSP-SA430-SUB1GHZ: RF Dev Support Tool,HW2.0",
        )
        .to_bytes(),
    );
    channel.add_response(&an_ack_response(Command::GetSerialNumber).to_bytes());
    channel.add_response(&a_response(Command::GetSerialNumber, &[0, 0, 0x09, 0x08]).to_bytes());
    channel.add_response(&an_ack_response(Command::GetCoreVersion).to_bytes());
    channel.add_response(&a_response(Command::GetCoreVersion, &[0x02, 0x0A]).to_bytes());
    channel.add_response(&an_ack_response(Command::GetSpectrumVersion).to_bytes());
    channel.add_response(&a_response(Command::GetSpectrumVersion, &[0x02, 0x05]).to_bytes());
    let mut device = Sa430::new(channel);

    assert_eq!(
        device.idn().unwrap(),
        "Texas Instruments,MSP-SA430-SUB1GHZ: RF Dev Support Tool,HW2.0"
    );
    assert_eq!(device.serial_number(), Ok(2312));
    assert_eq!(device.core_version().unwrap(), "2.10");
    assert_eq!(device.spectrum_version().unwrap(), "2.5");

    let channel = device.into_channel();
    let mut expected = Frame::new(Command::GetIdn).to_bytes();
    expected.extend(Frame::new(Command::GetSerialNumber).to_bytes());
    expected.extend(Frame::new(Command::GetCoreVersion).to_bytes());
    expected.extend(Frame::new(Command::GetSpectrumVersion).to_bytes());
    assert_eq!(channel.write_buffer, expected);
    assert!(channel.read_buffer.is_empty());
}

#[test]
fn given_a_channel_when_blink_then_return_ok() {
    let mut channel = MockChannel::new();
    channel.add_response(&an_ack_response(Command::BlinkLed).to_bytes());

    let mut device = Sa430::new(channel);

    assert_eq!(device.blink(), Ok(()));
    assert_eq!(
        device.into_channel().write_buffer,
        Frame::new(Command::BlinkLed).to_bytes()
    );
}

#[test]
fn given_a_channel_when_reboot_then_return_ok() {
    let mut channel = MockChannel::new();
    channel.add_response(&an_ack_response(Command::HardwareReset).to_bytes());

    let mut device = Sa430::new(channel);

    assert_eq!(device.reboot(), Ok(()));
    assert_eq!(
        device.into_channel().write_buffer,
        Frame::new(Command::HardwareReset).to_bytes()
    );
}

#[test]
fn a_device_that_refuses_to_blink_fails_the_call() {
    let mut channel = MockChannel::new();
    channel.add_response(&a_response(Command::GetLastError, &[0x03, 0x24]).to_bytes());
    let mut device = Sa430::new(channel);

    assert_eq!(
        device.blink(),
        Err(ProtocolError::Device { command: Command::BlinkLed, code: ErrorCode::UnknownCmd })
    );
}

#[test]
fn the_calibration_record_is_read_behind_its_header() {
    let mut device = Sa430::new(a_calibrated_channel());

    let record = device.calibration().unwrap().clone();

    assert_eq!(Ok(record), Calibration::from_bytes(&a_calibration_blob()));
    let channel = device.into_channel();
    assert_eq!(
        requests_of(&channel.write_buffer),
        vec![
            (0xD400, 10),
            (0xD40A, 255),
            (0xD509, 255),
            (0xD608, 255),
            (0xD707, 255),
            (0xD806, 255),
            (0xD905, 255),
            (0xDA04, 141),
        ]
    );
    assert!(channel.read_buffer.is_empty());
}

#[test]
fn the_calibration_record_is_read_once() {
    let mut device = Sa430::new(a_calibrated_channel());

    let first = device.calibration().unwrap().clone();
    let second = device.calibration().unwrap().clone();
    let version = device.calibration_version().unwrap();
    let date = device.calibration_date().unwrap();

    assert_eq!(first, second);
    assert_eq!(version, "1.16");
    assert_eq!(date, "Mo. Sep 19 2011\0");
    // One header and seven chunks were asked for, and no more.
    assert_eq!(device.into_channel().write_buffer.len(), 8 * 9);
}

#[test]
fn the_version_and_the_date_fetch_the_record_they_need() {
    let mut device = Sa430::new(a_calibrated_channel());
    assert_eq!(device.calibration_version().unwrap(), "1.16");
    assert_eq!(device.into_channel().write_buffer.len(), 8 * 9);

    let mut device = Sa430::new(a_calibrated_channel());
    assert_eq!(device.calibration_date().unwrap(), "Mo. Sep 19 2011\0");
}

#[test]
fn a_date_that_is_not_utf8_is_read_with_replacement_characters() {
    let mut blob = a_calibration_blob();
    blob[2] = 0xFF;
    let mut channel = MockChannel::new();
    add_flash(&mut channel, &a_prog_header(0x003E));
    add_flash(&mut channel, &blob);
    let mut device = Sa430::new(channel);

    assert_eq!(device.calibration_date().unwrap(), "\u{FFFD}o. Sep 19 2011\0");
}

#[test]
fn a_header_of_another_type_fails_the_fetch() {
    let mut channel = MockChannel::new();
    add_flash(&mut channel, &a_prog_header(0x003F));
    add_flash(&mut channel, &a_calibration_blob());
    let mut device = Sa430::new(channel);

    let error = device.calibration().unwrap_err();

    assert_eq!(error, ProtocolError::InvalidMemoryType { wanted: 62, found: 63 });
    assert_eq!(
        error.to_string(),
        "Invalid flash memory type, expected: 62, got: 63"
    );
    // The record was not asked for.
    assert_eq!(requests_of(&device.into_channel().write_buffer), vec![(0xD400, 10)]);
}

#[test]
fn a_header_that_is_too_short_fails_the_fetch() {
    let mut channel = MockChannel::new();
    add_flash(&mut channel, &a_prog_header(0x003E)[..9]);
    let mut device = Sa430::new(channel);

    assert_eq!(device.calibration().unwrap_err(), ProtocolError::OutOfBounds);
}

#[test]
fn a_record_that_is_too_short_fails_the_fetch() {
    let mut channel = MockChannel::new();
    add_flash(&mut channel, &a_prog_header(0x003E));
    add_flash(&mut channel, &a_calibration_blob()[..1670]);
    let mut device = Sa430::new(channel);

    assert_eq!(device.calibration_version(), Err(ProtocolError::OutOfBounds));
}

#[test]
fn a_fetch_that_failed_keeps_nothing_and_is_tried_again() {
    let mut channel = MockChannel::new();
    add_flash(&mut channel, &a_prog_header(0x0000));
    add_flash(&mut channel, &a_prog_header(0x003E));
    add_flash(&mut channel, &a_calibration_blob());
    let mut device = Sa430::new(channel);

    assert_eq!(
        device.calibration().unwrap_err(),
        ProtocolError::InvalidMemoryType { wanted: 62, found: 0 }
    );
    assert_eq!(device.calibration_version().unwrap(), "1.16");
    assert_eq!(device.into_channel().write_buffer.len(), 9 * 9);
}

#[test]
fn an_error_of_the_device_fails_the_fetch() {
    let mut channel = MockChannel::new();
    add_flash(&mut channel, &a_prog_header(0x003E));
    add_flash(&mut channel, &a_calibration_blob()[..255]);
    channel.add_response(&an_ack_response(Command::FlashRead).to_bytes());
    channel.add_response(&a_response(Command::GetLastError, &[0x04, 0x4D]).to_bytes());
    let mut device = Sa430::new(channel);

    assert_eq!(
        device.calibration().unwrap_err(),
        ProtocolError::Device { command: Command::FlashRead, code: ErrorCode::FlashMismatch }
    );
    assert_eq!(
        requests_of(&device.into_channel().write_buffer),
        vec![(0xD400, 10), (0xD40A, 255), (0xD509, 255)]
    );
}
