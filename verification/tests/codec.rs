//! Wire-format tests: frame encoding, decoding, and their round trip.

use golem_libp2p::simple::{
    decode_frame, SimpleProtocolConfig, SimpleProtocolError, SimpleProtocolMessage,
    MAX_MESSAGE_SIZE,
};

#[test]
fn test_protocol_id() {
    let config = SimpleProtocolConfig::new();
    assert_eq!(config.protocol_info(), "/golem/1.0.0");
    let message = SimpleProtocolMessage::new(String::from("x"));
    assert_eq!(message.protocol_info(), "/golem/1.0.0");
}

#[test]
fn test_encode_small_message() {
    let message = SimpleProtocolMessage::new(String::from("hello"));
    let frame = message.upgrade_outbound().unwrap();
    assert_eq!(frame, vec![5, b'h', b'e', b'l', b'l', b'o']);
}

#[test]
fn test_round_trip_small() {
    let message = SimpleProtocolMessage::new(String::from("Hello!"));
    let frame = message.upgrade_outbound().unwrap();
    let config = SimpleProtocolConfig::new();
    let decoded = config.upgrade_inbound(&frame).unwrap();
    assert_eq!(decoded, "Hello!");
}

#[test]
fn test_round_trip_multibyte_text() {
    let text = "grüße from node Δ";
    let message = SimpleProtocolMessage::new(String::from(text));
    let frame = message.upgrade_outbound().unwrap();
    let decoded = decode_frame(&frame).unwrap();
    assert_eq!(decoded, text);
}

#[test]
fn test_round_trip_two_byte_length_prefix() {
    let text: String = std::iter::repeat('a').take(300).collect();
    let message = SimpleProtocolMessage::new(text.clone());
    let frame = message.upgrade_outbound().unwrap();
    // 300 = 44 + 2 * 128: continuation byte 128 + 44, then 2.
    assert_eq!(frame[0], 172);
    assert_eq!(frame[1], 2);
    assert_eq!(frame.len(), 302);
    assert_eq!(decode_frame(&frame).unwrap(), text);
}

#[test]
fn test_encode_at_maximum_fails() {
    let text: String = std::iter::repeat('a').take(MAX_MESSAGE_SIZE).collect();
    let message = SimpleProtocolMessage::new(text);
    assert_eq!(
        message.upgrade_outbound().unwrap_err(),
        SimpleProtocolError::FrameTooLarge
    );
}

#[test]
fn test_encode_just_under_maximum() {
    let text: String = std::iter::repeat('a').take(MAX_MESSAGE_SIZE - 1).collect();
    let message = SimpleProtocolMessage::new(text.clone());
    let frame = message.upgrade_outbound().unwrap();
    assert_eq!(decode_frame(&frame).unwrap(), text);
}

#[test]
fn test_decode_oversized_frame() {
    // Length prefix declares 10241 bytes: 10241 = 1 + 80 * 128.
    let mut frame = vec![129, 80];
    frame.extend(std::iter::repeat(b'a').take(10241));
    assert_eq!(
        decode_frame(&frame).unwrap_err(),
        SimpleProtocolError::FrameTooLarge
    );
}

#[test]
fn test_decode_invalid_utf8() {
    let frame = vec![2, 0xff, 0xfe];
    assert_eq!(
        decode_frame(&frame).unwrap_err(),
        SimpleProtocolError::DecodeError
    );
}

#[test]
fn test_decode_empty_input() {
    assert_eq!(
        decode_frame(&[]).unwrap_err(),
        SimpleProtocolError::TransportReadError
    );
}

#[test]
fn test_decode_truncated_payload() {
    let frame = vec![5, b'a'];
    assert_eq!(
        decode_frame(&frame).unwrap_err(),
        SimpleProtocolError::TransportReadError
    );
}

#[test]
fn test_decode_trailing_bytes() {
    let frame = vec![1, b'a', b'b'];
    assert_eq!(
        decode_frame(&frame).unwrap_err(),
        SimpleProtocolError::TransportReadError
    );
}

#[test]
fn test_decode_unterminated_length_prefix() {
    let frame = vec![0x80, 0x80, 0x80];
    assert_eq!(
        decode_frame(&frame).unwrap_err(),
        SimpleProtocolError::TransportReadError
    );
}

#[test]
fn test_decode_non_canonical_length_prefix() {
    // 0x80 0x00 spells zero in two bytes; only the shortest form is read.
    let frame = vec![0x80, 0x00];
    assert_eq!(
        decode_frame(&frame).unwrap_err(),
        SimpleProtocolError::TransportReadError
    );
}

#[test]
fn test_decode_empty_message() {
    let message = SimpleProtocolMessage::new(String::new());
    let frame = message.upgrade_outbound().unwrap();
    assert_eq!(frame, vec![0]);
    assert_eq!(decode_frame(&frame).unwrap(), "");
}
