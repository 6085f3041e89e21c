use bubble::errors::{ProtocolViolation, SessionError};
use bubble::tunnel::{
    encode_handshake, encode_handshake_for, handshake_len, parse_handshake_target, MAX_TARGET_LEN,
};

#[test]
fn handshake_round_trip_for_literal_endpoint() {
    // The chaining client writes a record for "10.0.0.5:443"; the tunnel
    // node reads back exactly that destination.
    let msg = encode_handshake_for(&String::from("10.0.0.5:443")).unwrap();
    let n = handshake_len(msg[0], msg[1]) as usize;
    assert_eq!(n, "10.0.0.5:443".len());
    assert_eq!(msg.len(), 2 + n);
    let target = parse_handshake_target(&msg[2..].to_vec()).unwrap();
    assert_eq!(target, "10.0.0.5:443");
}

#[test]
fn handshake_length_prefix_is_big_endian() {
    let msg = encode_handshake(&vec![7u8; 300]).unwrap();
    assert_eq!(msg[0], 0x01);
    assert_eq!(msg[1], 0x2c);
    assert_eq!(handshake_len(0x01, 0x2c), 300);
}

#[test]
fn handshake_of_short_target_has_zero_high_byte() {
    let msg = encode_handshake(&b"example.com:443".to_vec()).unwrap();
    assert_eq!(&msg[..2], &[0x00, 15]);
    assert_eq!(&msg[2..], b"example.com:443");
}

#[test]
fn handshake_refuses_target_longer_than_prefix_allows() {
    assert_eq!(encode_handshake(&vec![0u8; MAX_TARGET_LEN + 1]), None);
    assert!(encode_handshake(&vec![0u8; MAX_TARGET_LEN]).is_some());
}

#[test]
fn handshake_of_empty_target() {
    let msg = encode_handshake(&vec![]).unwrap();
    assert_eq!(msg, vec![0x00, 0x00]);
}

#[test]
fn tunnel_target_must_be_utf8() {
    assert_eq!(
        parse_handshake_target(&vec![0xff, 0xfe]),
        Err(SessionError::Violation(ProtocolViolation::InvalidUtf8))
    );
    assert_eq!(
        parse_handshake_target(&b"host:80".to_vec()),
        Ok(String::from("host:80"))
    );
}
