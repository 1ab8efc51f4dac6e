use byteorder::{BigEndian, WriteBytesExt};
use coolq_sdk_rust::cursor::ByteCursor;
use coolq_sdk_rust::error::DecodeCause;
use coolq_sdk_rust::targets::ReadString;

fn text_bytes(text: &str) -> Vec<u8> {
    let mut out = Vec::new();
    out.write_i16::<BigEndian>(text.len() as i16).unwrap();
    out.extend_from_slice(text.as_bytes());
    out
}

#[test]
fn read_i16_takes_two_bytes_most_significant_first() {
    let mut cursor = ByteCursor::new(vec![0x01, 0x02, 0x03]);
    assert_eq!(cursor.read_i16(), Ok(0x0102));
    assert_eq!(cursor.position(), 2);
    assert_eq!(cursor.remaining_len(), 1);
}

#[test]
fn read_i16_is_signed() {
    let mut cursor = ByteCursor::new(vec![0xff, 0xfe]);
    assert_eq!(cursor.read_i16(), Ok(-2));
    let mut cursor = ByteCursor::new(vec![0x80, 0x00]);
    assert_eq!(cursor.read_i16(), Ok(i16::MIN));
    let mut cursor = ByteCursor::new(vec![0x7f, 0xff]);
    assert_eq!(cursor.read_i16(), Ok(i16::MAX));
}

#[test]
fn read_i32_takes_four_bytes_most_significant_first() {
    let mut cursor = ByteCursor::new(vec![0x00, 0x00, 0x04, 0x00, 0xff]);
    assert_eq!(cursor.read_i32(), Ok(1024));
    assert_eq!(cursor.position(), 4);
    assert_eq!(cursor.remaining_len(), 1);
}

#[test]
fn read_i32_is_signed() {
    let mut cursor = ByteCursor::new(vec![0xff, 0xff, 0xff, 0xff]);
    assert_eq!(cursor.read_i32(), Ok(-1));
    let mut cursor = ByteCursor::new(vec![0x80, 0x00, 0x00, 0x00]);
    assert_eq!(cursor.read_i32(), Ok(i32::MIN));
    let mut cursor = ByteCursor::new(vec![0x12, 0x34, 0x56, 0x78]);
    assert_eq!(cursor.read_i32(), Ok(0x1234_5678));
}

#[test]
fn read_i64_takes_eight_bytes_most_significant_first() {
    let mut cursor = ByteCursor::new(vec![0x01, 0x02, 0x03, 0x04, 0x05, 0x06, 0x07, 0x08, 0x09]);
    assert_eq!(cursor.read_i64(), Ok(0x0102_0304_0506_0708));
    assert_eq!(cursor.position(), 8);
    assert_eq!(cursor.remaining_len(), 1);
}

#[test]
fn read_i64_is_signed() {
    let mut cursor = ByteCursor::new(vec![0xff; 8]);
    assert_eq!(cursor.read_i64(), Ok(-1));
    let mut cursor = ByteCursor::new(vec![0x80, 0, 0, 0, 0, 0, 0, 0]);
    assert_eq!(cursor.read_i64(), Ok(i64::MIN));
}

#[test]
fn integers_written_big_endian_are_read_back() {
    for &x in &[0i32, 1, -1, 42, 1024, i32::MAX, i32::MIN, -123_456_789] {
        let mut bytes = Vec::new();
        bytes.write_i32::<BigEndian>(x).unwrap();
        assert_eq!(ByteCursor::new(bytes).read_i32(), Ok(x));
    }
    for &x in &[0i64, 7, -7, 100_000, i64::MAX, i64::MIN, 0x0123_4567_89ab_cdef] {
        let mut bytes = Vec::new();
        bytes.write_i64::<BigEndian>(x).unwrap();
        assert_eq!(ByteCursor::new(bytes).read_i64(), Ok(x));
    }
    for &x in &[0i16, 3, -3, i16::MAX, i16::MIN] {
        let mut bytes = Vec::new();
        bytes.write_i16::<BigEndian>(x).unwrap();
        assert_eq!(ByteCursor::new(bytes).read_i16(), Ok(x));
    }
}

#[test]
fn bytes_read_as_a_number_are_written_back_the_same() {
    let bytes = vec![0xde, 0xad, 0xbe, 0xef];
    let value = ByteCursor::new(bytes.clone()).read_i32().unwrap();
    let mut again = Vec::new();
    again.write_i32::<BigEndian>(value).unwrap();
    assert_eq!(again, bytes);

    let bytes = vec![0xfe, 0xdc, 0xba, 0x98, 0x76, 0x54, 0x32, 0x10];
    let value = ByteCursor::new(bytes.clone()).read_i64().unwrap();
    let mut again = Vec::new();
    again.write_i64::<BigEndian>(value).unwrap();
    assert_eq!(again, bytes);
}

#[test]
fn short_input_is_truncated_for_every_width() {
    let mut cursor = ByteCursor::new(vec![0x01]);
    assert_eq!(cursor.read_i16(), Err(DecodeCause::TruncatedInput));
    assert_eq!(cursor.remaining_len(), 0);

    let mut cursor = ByteCursor::new(vec![0x01, 0x02, 0x03]);
    assert_eq!(cursor.read_i32(), Err(DecodeCause::TruncatedInput));
    assert_eq!(cursor.position(), 3);

    let mut cursor = ByteCursor::new(vec![0x01, 0x02, 0x03, 0x04, 0x05, 0x06, 0x07]);
    assert_eq!(cursor.read_i64(), Err(DecodeCause::TruncatedInput));
    assert_eq!(cursor.remaining_len(), 0);

    let mut cursor = ByteCursor::new(Vec::new());
    assert_eq!(cursor.read_i32(), Err(DecodeCause::TruncatedInput));
}

#[test]
fn reads_follow_one_another() {
    let mut bytes = Vec::new();
    bytes.write_i32::<BigEndian>(7).unwrap();
    bytes.write_i64::<BigEndian>(-9).unwrap();
    bytes.write_i16::<BigEndian>(300).unwrap();
    let mut cursor = ByteCursor::new(bytes);
    assert_eq!(cursor.read_i32(), Ok(7));
    assert_eq!(cursor.read_i64(), Ok(-9));
    assert_eq!(cursor.read_i16(), Ok(300));
    assert_eq!(cursor.remaining_len(), 0);
    assert_eq!(cursor.read_i16(), Err(DecodeCause::TruncatedInput));
}

#[test]
fn read_block_gives_the_bytes_as_they_stand() {
    let mut cursor = ByteCursor::new(vec![9, 8, 7, 6, 5]);
    assert_eq!(cursor.read_block(3), Ok(vec![9, 8, 7]));
    assert_eq!(cursor.position(), 3);
    assert_eq!(cursor.read_block(0), Ok(Vec::new()));
    assert_eq!(cursor.read_block(3), Err(DecodeCause::TruncatedInput));
    assert_eq!(cursor.remaining_len(), 0);
}

#[test]
fn read_string_reads_the_declared_length() {
    let mut cursor = ByteCursor::new(vec![0x00, 0x03, b'a', b'b', b'c', 0x7f]);
    assert_eq!(cursor.read_string(), Ok(String::from("abc")));
    assert_eq!(cursor.position(), 5);
    assert_eq!(cursor.remaining_len(), 1);
}

#[test]
fn read_string_gives_back_what_was_encoded() {
    for text in ["", "a", "hello world", "caf\u{e9}", "\u{4f60}\u{597d}", "\u{1f600} ok"] {
        let mut bytes = text_bytes(text);
        bytes.push(0x55);
        let mut cursor = ByteCursor::new(bytes);
        assert_eq!(cursor.read_string(), Ok(String::from(text)));
        assert_eq!(cursor.remaining_len(), 1);
    }
}

#[test]
fn read_string_takes_the_longest_text_a_length_can_announce() {
    let text = "a".repeat(i16::MAX as usize);
    let mut cursor = ByteCursor::new(text_bytes(&text));
    assert_eq!(cursor.read_string(), Ok(text));
    assert_eq!(cursor.position(), 2 + i16::MAX as usize);
    assert_eq!(cursor.remaining_len(), 0);
}

#[test]
fn read_string_fails_on_short_input() {
    let mut cursor = ByteCursor::new(vec![0x00, 0x05, b'a', b'b']);
    assert_eq!(cursor.read_string(), Err(DecodeCause::TruncatedInput));
    assert_eq!(cursor.remaining_len(), 0);

    let mut cursor = ByteCursor::new(vec![0x00]);
    assert_eq!(cursor.read_string(), Err(DecodeCause::TruncatedInput));
}

#[test]
fn zero_length_is_the_empty_string_and_consumes_only_the_length() {
    let mut cursor = ByteCursor::new(vec![0x00, 0x00, b'x', b'y']);
    assert_eq!(cursor.read_string(), Ok(String::new()));
    assert_eq!(cursor.position(), 2);
    assert_eq!(cursor.remaining_len(), 2);
}

#[test]
fn negative_length_is_the_empty_string_and_consumes_only_the_length() {
    let mut cursor = ByteCursor::new(vec![0xff, 0xff, b'x', b'y']);
    assert_eq!(cursor.read_string(), Ok(String::new()));
    assert_eq!(cursor.position(), 2);

    let mut cursor = ByteCursor::new(vec![0x80, 0x00]);
    assert_eq!(cursor.read_string(), Ok(String::new()));
    assert_eq!(cursor.position(), 2);
}

#[test]
fn bytes_that_are_not_utf8_are_an_invalid_encoding() {
    let mut cursor = ByteCursor::new(vec![0x00, 0x02, 0xc3, 0x28, 0x01]);
    assert_eq!(cursor.read_string(), Err(DecodeCause::InvalidEncoding));
    assert_eq!(cursor.position(), 4);

    let mut cursor = ByteCursor::new(vec![0x00, 0x01, 0xff]);
    assert_eq!(cursor.read_string(), Err(DecodeCause::InvalidEncoding));
}

#[test]
fn a_new_cursor_stands_at_the_start() {
    let cursor = ByteCursor::new(vec![1, 2, 3]);
    assert_eq!(cursor.position(), 0);
    assert_eq!(cursor.remaining_len(), 3);
}
