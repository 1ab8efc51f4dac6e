use byteorder::{BigEndian, WriteBytesExt};
use coolq_sdk_rust::cursor::ByteCursor;
use coolq_sdk_rust::error::{DecodeCause, DecodeFailure, DecodeStage};
use coolq_sdk_rust::targets::{
    decode_base64_envelope, read_multi_object, read_objects, Anonymous, File, Flag,
};

fn push_text(out: &mut Vec<u8>, text: &str) {
    out.write_i16::<BigEndian>(text.len() as i16).unwrap();
    out.extend_from_slice(text.as_bytes());
}

fn push_block(out: &mut Vec<u8>, block: &[u8]) {
    out.write_i16::<BigEndian>(block.len() as i16).unwrap();
    out.extend_from_slice(block);
}

fn envelope(payload: &[u8]) -> Vec<u8> {
    base64::encode(payload).into_bytes()
}

fn failure(stage: DecodeStage, cause: DecodeCause) -> DecodeFailure {
    DecodeFailure { stage, cause }
}

fn file_payload(id: &str, name: &str, size: i64, busid: i64) -> Vec<u8> {
    let mut payload = Vec::new();
    push_text(&mut payload, id);
    push_text(&mut payload, name);
    payload.write_i64::<BigEndian>(size).unwrap();
    payload.write_i64::<BigEndian>(busid).unwrap();
    payload
}

#[test]
fn envelope_is_unwrapped_not_handed_back() {
    let mut cursor = decode_base64_envelope(b"AAAAKg==").unwrap();
    assert_eq!(cursor.remaining_len(), 4);
    assert_eq!(cursor.position(), 0);
    assert_eq!(cursor.read_i32(), Ok(42));
}

#[test]
fn envelope_that_is_not_base64_is_malformed() {
    let r = decode_base64_envelope(b"not base64!");
    assert_eq!(r.err(), Some(failure(DecodeStage::Envelope, DecodeCause::MalformedEnvelope)));
    assert_eq!(
        read_multi_object(b"****"),
        Err(failure(DecodeStage::Envelope, DecodeCause::MalformedEnvelope))
    );
    assert_eq!(
        File::decode(b"a"),
        Err(failure(DecodeStage::Envelope, DecodeCause::MalformedEnvelope))
    );
    assert_eq!(
        Anonymous::decode(b"%%%%", 1),
        Err(failure(DecodeStage::Envelope, DecodeCause::MalformedEnvelope))
    );
}

#[test]
fn multi_object_with_count_zero_is_empty() {
    let mut payload = Vec::new();
    payload.write_i32::<BigEndian>(0).unwrap();
    assert_eq!(read_multi_object(&envelope(&payload)), Ok(Vec::new()));

    payload.extend_from_slice(&[1, 2, 3]);
    assert_eq!(read_multi_object(&envelope(&payload)), Ok(Vec::new()));
}

#[test]
fn multi_object_with_three_blocks_keeps_their_order() {
    let mut payload = Vec::new();
    payload.write_i32::<BigEndian>(3).unwrap();
    push_block(&mut payload, b"first");
    push_block(&mut payload, &[]);
    push_block(&mut payload, &[0xff, 0x00, 0x80]);
    assert_eq!(
        read_multi_object(&envelope(&payload)),
        Ok(vec![b"first".to_vec(), Vec::new(), vec![0xff, 0x00, 0x80]])
    );
}

#[test]
fn multi_object_with_negative_count_is_empty() {
    let mut payload = Vec::new();
    payload.write_i32::<BigEndian>(-5).unwrap();
    push_block(&mut payload, b"ignored");
    assert_eq!(read_multi_object(&envelope(&payload)), Ok(Vec::new()));
}

#[test]
fn multi_object_ignores_what_follows_the_last_block() {
    let mut payload = Vec::new();
    payload.write_i32::<BigEndian>(1).unwrap();
    push_block(&mut payload, b"only");
    payload.extend_from_slice(b"rest");
    assert_eq!(read_multi_object(&envelope(&payload)), Ok(vec![b"only".to_vec()]));
}

#[test]
fn multi_object_without_a_count_is_truncated() {
    assert_eq!(
        read_multi_object(&envelope(&[0, 0, 1])),
        Err(failure(DecodeStage::Count, DecodeCause::TruncatedInput))
    );
    assert_eq!(
        read_multi_object(b""),
        Err(failure(DecodeStage::Count, DecodeCause::TruncatedInput))
    );
}

#[test]
fn multi_object_with_a_missing_length_is_truncated() {
    let mut payload = Vec::new();
    payload.write_i32::<BigEndian>(2).unwrap();
    push_block(&mut payload, b"one");
    payload.push(0);
    assert_eq!(
        read_multi_object(&envelope(&payload)),
        Err(failure(DecodeStage::EntryLength, DecodeCause::TruncatedInput))
    );
}

#[test]
fn multi_object_with_a_short_block_is_truncated() {
    let mut payload = Vec::new();
    payload.write_i32::<BigEndian>(1).unwrap();
    payload.write_i16::<BigEndian>(4).unwrap();
    payload.extend_from_slice(b"abc");
    assert_eq!(
        read_multi_object(&envelope(&payload)),
        Err(failure(DecodeStage::EntryBody, DecodeCause::TruncatedInput))
    );
}

#[test]
fn multi_object_with_a_negative_length_is_truncated() {
    let mut payload = Vec::new();
    payload.write_i32::<BigEndian>(1).unwrap();
    payload.write_i16::<BigEndian>(-1).unwrap();
    payload.extend_from_slice(b"abc");
    assert_eq!(
        read_multi_object(&envelope(&payload)),
        Err(failure(DecodeStage::EntryBody, DecodeCause::TruncatedInput))
    );
}

#[test]
fn read_objects_starts_where_the_cursor_stands() {
    let mut payload = vec![0xaa, 0xbb];
    payload.write_i32::<BigEndian>(1).unwrap();
    push_block(&mut payload, b"x");
    let mut cursor = ByteCursor::new(payload);
    assert_eq!(cursor.read_i16(), Ok(0xaabbu16 as i16));
    assert_eq!(read_objects(cursor), Ok(vec![b"x".to_vec()]));
}

#[test]
fn decode_file_gives_the_four_fields() {
    let raw = envelope(&file_payload("f1", "a.png", 1024, 7));
    let file = File::decode(&raw).unwrap();
    assert_eq!(file.id, "f1");
    assert_eq!(file.name, "a.png");
    assert_eq!(file.size, 1024);
    assert_eq!(file.busid, 7);
}

#[test]
fn decode_file_from_a_known_envelope() {
    // 00 02 'f' '1' 00 05 'a' '.' 'p' 'n' 'g' 00*6 04 00 00*7 07
    let file = File::decode(b"AAJmMQAFYS5wbmcAAAAAAAAEAAAAAAAAAAAH").unwrap();
    assert_eq!(
        file,
        File { id: String::from("f1"), name: String::from("a.png"), size: 1024, busid: 7 }
    );
}

#[test]
fn decode_file_with_empty_texts_and_negative_numbers() {
    let raw = envelope(&file_payload("", "", -1, i64::MIN));
    assert_eq!(
        File::decode(&raw),
        Ok(File { id: String::new(), name: String::new(), size: -1, busid: i64::MIN })
    );
}

#[test]
fn decode_file_names_the_field_that_failed() {
    let full = file_payload("id", "name", 1, 2);
    // id: 2 + 2 bytes, name: 2 + 4 bytes, size: 8 bytes, bus id: 8 bytes
    assert_eq!(
        File::decode(&envelope(&full[..3])),
        Err(failure(DecodeStage::FileId, DecodeCause::TruncatedInput))
    );
    assert_eq!(
        File::decode(&envelope(&full[..5])),
        Err(failure(DecodeStage::FileName, DecodeCause::TruncatedInput))
    );
    assert_eq!(
        File::decode(&envelope(&full[..12])),
        Err(failure(DecodeStage::FileSize, DecodeCause::TruncatedInput))
    );
    assert_eq!(
        File::decode(&envelope(&full[..25])),
        Err(failure(DecodeStage::FileBusId, DecodeCause::TruncatedInput))
    );
    assert!(File::decode(&envelope(&full)).is_ok());
}

#[test]
fn decode_file_rejects_text_that_is_not_utf8() {
    let mut payload = vec![0x00, 0x01, 0xff];
    push_text(&mut payload, "name");
    payload.write_i64::<BigEndian>(1).unwrap();
    payload.write_i64::<BigEndian>(2).unwrap();
    assert_eq!(
        File::decode(&envelope(&payload)),
        Err(failure(DecodeStage::FileId, DecodeCause::InvalidEncoding))
    );

    let mut payload = Vec::new();
    push_text(&mut payload, "id");
    payload.extend_from_slice(&[0x00, 0x02, 0xc3, 0x28]);
    payload.write_i64::<BigEndian>(1).unwrap();
    payload.write_i64::<BigEndian>(2).unwrap();
    assert_eq!(
        File::decode(&envelope(&payload)),
        Err(failure(DecodeStage::FileName, DecodeCause::InvalidEncoding))
    );
}

#[test]
fn file_from_cursor_reads_the_payload() {
    let cursor = ByteCursor::new(file_payload("x", "y", 3, 4));
    assert_eq!(
        File::from_cursor(cursor),
        Ok(File { id: String::from("x"), name: String::from("y"), size: 3, busid: 4 })
    );
}

#[test]
fn decode_anonymous_gives_the_fields_and_keeps_the_envelope() {
    let mut payload = Vec::new();
    payload.write_i64::<BigEndian>(80000000).unwrap();
    push_text(&mut payload, "someone");
    let raw = envelope(&payload);
    let sender = Anonymous::decode(&raw, 123456).unwrap();
    assert_eq!(sender.group_id, 123456);
    assert_eq!(sender.user_id, 80000000);
    assert_eq!(sender.name, "someone");
    assert_eq!(sender.flag.as_bytes(), &raw[..]);
}

#[test]
fn decode_anonymous_keeps_a_flag_that_is_no_text() {
    let mut payload = Vec::new();
    payload.write_i64::<BigEndian>(-2).unwrap();
    push_text(&mut payload, "");
    // unpadded base64 with every byte of the alphabet's high end
    let raw = base64::encode_config(&payload, base64::STANDARD_NO_PAD).into_bytes();
    let sender = Anonymous::decode(&raw, 5).unwrap();
    assert_eq!(sender.flag, Flag::from_bytes(&raw));
    assert_eq!(sender.user_id, -2);
    assert_eq!(sender.name, "");
}

#[test]
fn decode_anonymous_names_the_field_that_failed() {
    assert_eq!(
        Anonymous::decode(&envelope(&[0, 0, 0, 0, 0, 0, 1]), 1),
        Err(failure(DecodeStage::SenderUserId, DecodeCause::TruncatedInput))
    );
    assert_eq!(
        Anonymous::decode(&envelope(&[0, 0, 0, 0, 0, 0, 0, 1, 0]), 1),
        Err(failure(DecodeStage::SenderName, DecodeCause::TruncatedInput))
    );
    assert_eq!(
        Anonymous::decode(&envelope(&[0, 0, 0, 0, 0, 0, 0, 1, 0, 1, 0x80]), 1),
        Err(failure(DecodeStage::SenderName, DecodeCause::InvalidEncoding))
    );
}

#[test]
fn anonymous_from_cursor_takes_the_token_from_the_caller() {
    let mut payload = Vec::new();
    payload.write_i64::<BigEndian>(9).unwrap();
    push_text(&mut payload, "n");
    let token = [0xff, 0xfe, 0x00];
    let sender = Anonymous::from_cursor(ByteCursor::new(payload), 77, &token).unwrap();
    assert_eq!(sender.group_id, 77);
    assert_eq!(sender.user_id, 9);
    assert_eq!(sender.name, "n");
    assert_eq!(sender.flag.as_bytes(), &token[..]);
}

#[test]
fn ban_passes_group_token_and_time_on() {
    let sender = Anonymous {
        group_id: 42,
        user_id: 1,
        name: String::from("x"),
        flag: Flag::from_bytes(&[1, 2, 0xff]),
    };
    let request = sender.ban(600);
    assert_eq!(request.group_id, 42);
    assert_eq!(request.flag.as_bytes(), &[1u8, 2, 0xff][..]);
    assert_eq!(request.duration, 600);
}

#[test]
fn default_anonymous_is_empty() {
    let sender = Anonymous::default();
    assert_eq!(sender.group_id, 0);
    assert_eq!(sender.user_id, 0);
    assert_eq!(sender.name, "");
    assert_eq!(sender.flag.as_bytes(), &[] as &[u8]);
    assert_eq!(Flag::default().as_bytes(), &[] as &[u8]);
}

#[test]
fn flag_keeps_its_bytes() {
    let flag = Flag::from_bytes(&[0x80, 0x00, 0x7f]);
    assert_eq!(flag.as_bytes(), &[0x80u8, 0x00, 0x7f][..]);
    assert_eq!(flag.clone(), flag);
}
