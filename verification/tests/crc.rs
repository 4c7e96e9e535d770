use sa430::crc::crc16;

#[test]
fn given_a_slice_when_crc16_then_compute_crc16_value() {
    let data = [0x2a, 0x00, 0x01];
    let crc = crc16(&data);
    assert_eq!(crc, 0x9509);
}

#[test]
fn the_checksum_of_one_byte_is_the_byte() {
    assert_eq!(crc16(&[0x00]), 0x0000);
    assert_eq!(crc16(&[0x2A]), 0x002A);
    assert_eq!(crc16(&[0xFF]), 0x00FF);
}

#[test]
fn the_checksum_of_two_bytes_follows_the_steps() {
    // 0x002A swapped is 0x2A00, and 0x00 leaves it; the low byte is zero, so
    // no adjustment changes it.
    assert_eq!(crc16(&[0x2A, 0x00]), 0x2A00);
    // 0x0001 swapped is 0x0100; 0x01 makes 0x0101; the second adjustment adds
    // 0x1000, the third 0x0020.
    assert_eq!(crc16(&[0x01, 0x01]), 0x1121);
}

#[test]
fn the_checksum_covers_header_and_payload_of_a_frame() {
    assert_eq!(crc16(&[0x2A, 0x02, 0x1B, 0x00, 0x01]), 0x0FDC);
    assert_eq!(crc16(&[0x2A, 0x04, 0x0A, 0xD4, 0x00, 0x00, 0x0A]), 0xCDAD);
    assert_eq!(crc16(&[0x2A, 0x00, 0x00]), 0x8528);
}

#[test]
fn the_checksum_is_the_same_for_the_same_bytes() {
    let first: Vec<u8> = (0..=255u8).collect();
    let second: Vec<u8> = (0..=255u8).collect();
    assert_eq!(crc16(&first), crc16(&second));
    assert_eq!(crc16(&first), crc16(&first));
}

#[test]
fn the_checksum_tells_apart_bytes_that_differ_in_one_place() {
    let bytes = [0x2A, 0x04, 0x0A, 0xD4, 0x00, 0x00, 0x0A];
    let checksum = crc16(&bytes);
    for index in 0..bytes.len() {
        for byte in 0..=255u8 {
            if byte != bytes[index] {
                let mut changed = bytes;
                changed[index] = byte;
                assert_ne!(crc16(&changed), checksum);
            }
        }
    }
}
