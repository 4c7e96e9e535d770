use sa430::error::ProtocolError;
use sa430::parser::ByteArrayParser;

#[test]
fn given_a_buffer_when_take_u8_then_return_the_byte() {
    let data = vec![0x01, 0x02, 0x03, 0x04];
    let mut parser = ByteArrayParser::new(&data);

    assert_eq!(parser.take_u8().unwrap(), 0x01);
}

#[test]
fn given_a_buffer_when_take_u16_then_return_the_u16() {
    let data = vec![0x01, 0x02, 0x03, 0x04];
    let mut parser = ByteArrayParser::new(&data);

    assert_eq!(parser.take_u16().unwrap(), 0x0102);
}

#[test]
fn given_a_buffer_when_take_u32_then_return_the_u32() {
    let data = vec![0x01, 0x02, 0x03, 0x04];
    let mut parser = ByteArrayParser::new(&data);

    assert_eq!(parser.take_u32().unwrap(), 0x01020304);
}

#[test]
fn given_a_buffer_when_take_bytes_then_return_the_bytes() {
    let data = vec![0x01, 0x02, 0x03, 0x04];
    let mut parser = ByteArrayParser::new(&data);

    assert_eq!(parser.take_bytes(2).unwrap(), &[0x01, 0x02]);
}

#[test]
fn given_a_buffer_when_take_bytes_then_advance_the_offset() {
    let data = vec![0x01, 0x02, 0x03, 0x04];
    let mut parser = ByteArrayParser::new(&data);

    parser.take_bytes(2).unwrap();
    assert_eq!(parser.take_bytes(2).unwrap(), &[0x03, 0x04]);
}

#[test]
fn given_a_buffer_when_take_bytes_then_return_an_error_if_not_enough_data() {
    let data = vec![0x01, 0x02, 0x03, 0x04];
    let mut parser = ByteArrayParser::new(&data);

    assert_eq!(parser.take_bytes(5).unwrap_err().to_string(), "index out of bounds");
}

#[test]
fn values_are_read_one_behind_the_other() {
    let data = vec![0x01, 0x02, 0x03, 0x04, 0x05, 0x06, 0x07, 0x08, 0x09];
    let mut parser = ByteArrayParser::new(&data);

    assert_eq!(parser.available(), 9);
    assert_eq!(parser.take_u8().unwrap(), 0x01);
    assert_eq!(parser.take_u16().unwrap(), 0x0203);
    assert_eq!(parser.take_u32().unwrap(), 0x04050607);
    assert_eq!(parser.take_bytes(2).unwrap(), &[0x08, 0x09]);
    assert_eq!(parser.available(), 0);
}

#[test]
fn a_read_past_the_end_fails_and_leaves_the_cursor() {
    let data = vec![0x01, 0x02, 0x03];
    let mut parser = ByteArrayParser::new(&data);

    assert_eq!(parser.take_u32().unwrap_err(), ProtocolError::OutOfBounds);
    assert_eq!(parser.available(), 3);
    assert_eq!(parser.take_u16().unwrap(), 0x0102);
    assert_eq!(parser.take_u16().unwrap_err(), ProtocolError::OutOfBounds);
    assert_eq!(parser.take_u8().unwrap(), 0x03);
    assert_eq!(parser.take_u8().unwrap_err(), ProtocolError::OutOfBounds);
    assert_eq!(parser.take_bytes(1).unwrap_err(), ProtocolError::OutOfBounds);
}

#[test]
fn the_last_bytes_of_a_buffer_can_be_read() {
    let data = vec![0xDE, 0xAD, 0xBE, 0xEF];
    assert_eq!(ByteArrayParser::new(&data).take_bytes(4).unwrap(), data.as_slice());
    assert_eq!(ByteArrayParser::new(&data[2..]).take_u16().unwrap(), 0xBEEF);
    assert_eq!(ByteArrayParser::new(&data[3..]).take_u8().unwrap(), 0xEF);
}

#[test]
fn nothing_can_be_taken_from_any_buffer() {
    let data: Vec<u8> = vec![];
    let mut parser = ByteArrayParser::new(&data);

    assert_eq!(parser.take_bytes(0).unwrap().len(), 0);
    assert_eq!(parser.take_u8().unwrap_err(), ProtocolError::OutOfBounds);
    assert_eq!(parser.take_bytes(usize::MAX).unwrap_err(), ProtocolError::OutOfBounds);
}
