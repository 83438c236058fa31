use ethproxy::codec::{
    decode_body, decode_frame, echo_round_trip, encode_frame, encode_len, encode_message,
    parse_len, reply_len_within_bound, TransportError, MAX_REPLY_LEN,
};

#[test]
fn frame_header_is_little_endian_length() {
    let payload: Vec<u8> = vec![b'p', b'i', b'n', b'g'];
    let wire = encode_frame(&payload).unwrap();
    assert_eq!(&wire[0..4], &[4u8, 0, 0, 0]);
    assert_eq!(&wire[4..], &payload[..]);
}

#[test]
fn frame_header_zero_length() {
    let payload: Vec<u8> = vec![];
    let wire = encode_frame(&payload).unwrap();
    assert_eq!(wire, vec![0u8, 0, 0, 0]);
}

#[test]
fn frame_header_multibyte_length() {
    let payload: Vec<u8> = vec![7u8; 0x0201];
    let wire = encode_frame(&payload).unwrap();
    assert_eq!(&wire[0..4], &[0x01u8, 0x02, 0, 0]);
    assert_eq!(wire.len(), 4 + 0x0201);
}

#[test]
fn encode_message_frames_utf8_bytes() {
    let wire = encode_message("ping").unwrap();
    assert_eq!(wire, vec![4u8, 0, 0, 0, b'p', b'i', b'n', b'g']);
}

#[test]
fn encode_len_rejects_oversized_payload() {
    let too_big: usize = u32::MAX as usize + 1;
    assert_eq!(encode_len(too_big), Err(TransportError::TooLong));
}

#[test]
fn encode_len_accepts_maximum() {
    let header = encode_len(u32::MAX as usize).unwrap();
    assert_eq!(header, vec![0xffu8, 0xff, 0xff, 0xff]);
}

#[test]
fn reply_ceiling_is_enforced_at_the_bound() {
    assert!(reply_len_within_bound(0));
    assert!(reply_len_within_bound(MAX_REPLY_LEN));
    assert!(!reply_len_within_bound(MAX_REPLY_LEN + 1));
}

#[test]
fn parse_len_reads_little_endian() {
    assert_eq!(parse_len(&vec![0x0a, 0, 0, 0]), 10);
    assert_eq!(parse_len(&vec![0x01, 0x02, 0, 0]), 0x0201);
    assert_eq!(parse_len(&vec![0, 0, 0, 0x80]), 0x8000_0000);
}

#[test]
fn round_trip_ping() {
    assert_eq!(echo_round_trip("ping"), Ok(String::from("ping")));
}

#[test]
fn round_trip_empty_message() {
    assert_eq!(echo_round_trip(""), Ok(String::new()));
}

#[test]
fn round_trip_multibyte_text() {
    let msg = "héllo → wörld";
    assert_eq!(echo_round_trip(msg), Ok(String::from(msg)));
}

#[test]
fn round_trip_line_with_separator() {
    assert_eq!(echo_round_trip("ping\n"), Ok(String::from("ping\n")));
}

#[test]
fn decode_rejects_malformed_utf8() {
    let wire: Vec<u8> = vec![2, 0, 0, 0, 0xff, 0xfe];
    assert_eq!(decode_frame(&wire), Err(TransportError::MalformedData));
}

#[test]
fn decode_body_rejects_invalid_bytes() {
    assert_eq!(decode_body(vec![0xff]), Err(TransportError::MalformedData));
}

#[test]
fn decode_body_accepts_valid_bytes() {
    assert_eq!(decode_body(vec![b'o', b'k']), Ok(String::from("ok")));
}

#[test]
fn short_read_when_body_is_truncated() {
    // The header declares 10 bytes but only 4 arrived before the close.
    let wire: Vec<u8> = vec![10, 0, 0, 0, 1, 2, 3, 4];
    assert_eq!(decode_frame(&wire), Err(TransportError::ShortRead));
}

#[test]
fn short_read_when_header_is_truncated() {
    let wire: Vec<u8> = vec![1, 0];
    assert_eq!(decode_frame(&wire), Err(TransportError::ShortRead));
}

#[test]
fn decode_empty_frame_is_empty_string() {
    let wire: Vec<u8> = vec![0, 0, 0, 0];
    assert_eq!(decode_frame(&wire), Ok(String::new()));
}
