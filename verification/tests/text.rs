use sa430::bytes::append;
use sa430::bytes::to_array;
use sa430::endian::u16_from_be;
use sa430::endian::u16_from_le;
use sa430::endian::u16_to_be;
use sa430::endian::u32_from_be;
use sa430::endian::u64_from_be;
use sa430::error::ProtocolError;
use sa430::text::digit_text;
use sa430::text::push_decimal;
use sa430::text::push_hex2;
use sa430::text::push_hex4;
use sa430::text::push_padded;
use sa430::text::version_string;

#[test]
fn numerals_run_from_0_to_f() {
    let numerals: Vec<&str> = (0..16).map(digit_text).collect();
    assert_eq!(numerals.concat(), "0123456789ABCDEF");
}

#[test]
fn a_byte_takes_two_hexadecimal_digits() {
    for byte in 0..=255u8 {
        let mut text = String::from("0x");
        push_hex2(&mut text, byte);
        assert_eq!(text, format!("0x{:02X}", byte));
    }
}

#[test]
fn a_16_bit_value_takes_four_hexadecimal_digits() {
    for value in [0u16, 1, 0x000F, 0x0010, 0x0320, 0x8528, 0xCDAD, 0xFFFF] {
        let mut text = String::new();
        push_hex4(&mut text, value);
        assert_eq!(text, format!("{:04X}", value));
    }
    let mut text = String::new();
    push_hex4(&mut text, 0x0A0B);
    assert_eq!(text, "0A0B");
}

#[test]
fn a_number_is_written_in_decimal_without_leading_zeros() {
    for value in [0u32, 1, 9, 10, 11, 62, 99, 100, 255, 2312, 65535, 1_000_000, u32::MAX] {
        let mut text = String::from("n = ");
        push_decimal(&mut text, value);
        assert_eq!(text, format!("n = {}", value));
    }
    let mut text = String::new();
    push_decimal(&mut text, 4294967295);
    assert_eq!(text, "4294967295");
}

#[test]
fn a_version_is_major_dot_minor() {
    assert_eq!(version_string(0x020A), "2.10");
    assert_eq!(version_string(0x0205), "2.5");
    assert_eq!(version_string(0x0110), "1.16");
    assert_eq!(version_string(0x0000), "0.0");
    assert_eq!(version_string(0xFFFF), "255.255");
}

#[test]
fn a_field_is_padded_to_its_column() {
    for (field, width, expected) in [
        ("", 0, ""),
        ("", 3, "   "),
        ("ab", 2, "ab"),
        ("ab", 5, "ab   "),
        ("abcdef", 5, "abcdef"),
        ("äöü", 5, "äöü  "),
    ] {
        let mut text = String::from("|");
        push_padded(&mut text, field, width);
        text.push('|');
        assert_eq!(text, format!("|{:width$}|", field, width = width));
        assert_eq!(text, format!("|{}|", expected));
    }
}

#[test]
fn integers_are_joined_from_their_bytes() {
    assert_eq!(u16_from_be(0x12, 0x34), 0x1234);
    assert_eq!(u16_from_le(0x12, 0x34), 0x3412);
    assert_eq!(u16_from_be(0xFF, 0xFF), 0xFFFF);
    assert_eq!(u32_from_be(0x12, 0x34, 0x56, 0x78), 0x12345678);
    assert_eq!(u32_from_be(0xFF, 0xFF, 0xFF, 0xFF), u32::MAX);
    assert_eq!(
        u64_from_be(&[0x01, 0x23, 0x45, 0x67, 0x89, 0xAB, 0xCD, 0xEF]),
        0x0123456789ABCDEF
    );
    assert_eq!(u64_from_be(&[0xFF; 8]), u64::MAX);
    assert_eq!(u64_from_be(&1.5f64.to_be_bytes()), 1.5f64.to_bits());
}

#[test]
fn a_16_bit_value_is_split_into_its_bytes() {
    for value in [0u16, 1, 0x00FF, 0x0100, 0x4321, 0xFFFF] {
        let (high, low) = u16_to_be(value);
        assert_eq!([high, low], value.to_be_bytes());
        assert_eq!(u16_from_be(high, low), value);
    }
}

#[test]
fn bytes_are_appended_and_copied() {
    let mut target = vec![1, 2];
    append(&mut target, &[3, 4, 5]);
    append(&mut target, &[]);
    assert_eq!(target, vec![1, 2, 3, 4, 5]);
    let block: [u8; 3] = to_array(&target[1..4]);
    assert_eq!(block, [2, 3, 4]);
    let empty: [u8; 0] = to_array(&[]);
    assert_eq!(empty, []);
}

#[test]
fn errors_say_what_went_wrong() {
    assert_eq!(ProtocolError::OutOfBounds.to_string(), "index out of bounds");
    assert_eq!(ProtocolError::InvalidUtf8.to_string(), "invalid utf-8 sequence");
    assert_eq!(ProtocolError::NoFrame.to_string(), "No frame in the bytes received");
    assert_eq!(
        ProtocolError::InvalidMemoryType { wanted: 62, found: 65535 }.to_string(),
        "Invalid flash memory type, expected: 62, got: 65535"
    );
}
