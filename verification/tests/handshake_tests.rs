//! Tests for the 68-byte handshake codec.
use bittorrent_starter_rust::handshake::{Handshake, HandshakeError};
use bittorrent_starter_rust::ParseError;

fn sample_info_hash() -> Vec<u8> {
    (0u8..20).collect()
}

fn sample_peer_id() -> Vec<u8> {
    b"00112233445566778899".to_vec()
}

#[test]
fn round_trip_preserves_every_field() {
    let h = Handshake::new(&sample_info_hash(), &sample_peer_id());
    let bytes = h.as_bytes();
    assert_eq!(bytes.len(), 68);
    let parsed = Handshake::from_bytes(&bytes).unwrap();
    assert_eq!(*parsed.length(), 19);
    assert_eq!(parsed.protocol(), h.protocol());
    assert_eq!(parsed.reserved(), &vec![0u8; 8]);
    assert_eq!(parsed.infohash(), &sample_info_hash());
    assert_eq!(parsed.peer_id(), &sample_peer_id());
    assert!(parsed == h);
}

#[test]
fn serialized_layout_is_exact() {
    let h = Handshake::new(&sample_info_hash(), &sample_peer_id());
    let bytes = h.as_bytes();
    let mut expected = vec![19u8];
    expected.extend_from_slice(b"BitTorrent protocol");
    expected.extend_from_slice(&[0u8; 8]);
    expected.extend_from_slice(&sample_info_hash());
    expected.extend_from_slice(&sample_peer_id());
    assert_eq!(bytes, expected);
}

#[test]
fn equality_ignores_peer_id_and_reserved() {
    let a = Handshake::new(&sample_info_hash(), &sample_peer_id());
    let b = Handshake::new(&sample_info_hash(), &b"99887766554433221100".to_vec());
    assert!(a == b);
    let c = Handshake::new(&(1u8..21).collect(), &sample_peer_id());
    assert!(a != c);
}

#[test]
fn parse_rejects_short_input() {
    let err = Handshake::from_bytes(&[19u8; 67]).unwrap_err();
    assert!(matches!(err, ParseError::Deserialization(_)));
}

#[test]
fn parse_rejects_wrong_length_byte() {
    let h = Handshake::new(&sample_info_hash(), &sample_peer_id());
    let mut bytes = h.as_bytes();
    bytes[0] = 18;
    assert!(Handshake::from_bytes(&bytes).is_err());
}

#[test]
fn parse_rejects_wrong_protocol_name() {
    let h = Handshake::new(&sample_info_hash(), &sample_peer_id());
    let mut bytes = h.as_bytes();
    bytes[1] = b'b';
    assert!(Handshake::from_bytes(&bytes).is_err());
}

#[test]
fn validate_reply_accepts_matching_peer() {
    let ours = Handshake::new(&sample_info_hash(), &sample_peer_id());
    let theirs = Handshake::new(&sample_info_hash(), &b"99887766554433221100".to_vec());
    let reply = theirs.as_bytes();
    let parsed = ours.validate_reply(&reply).unwrap();
    assert_eq!(parsed.peer_id(), &b"99887766554433221100".to_vec());
}

#[test]
fn validate_reply_rejects_other_info_hash() {
    let ours = Handshake::new(&sample_info_hash(), &sample_peer_id());
    let theirs = Handshake::new(&(1u8..21).collect(), &sample_peer_id());
    let err = ours.validate_reply(&theirs.as_bytes()).unwrap_err();
    assert!(matches!(err, HandshakeError::Connection(_)));
}

#[test]
fn validate_reply_rejects_garbage() {
    let ours = Handshake::new(&sample_info_hash(), &sample_peer_id());
    let err = ours.validate_reply(&[0u8; 68]).unwrap_err();
    assert!(matches!(err, HandshakeError::Connection(_)));
}
