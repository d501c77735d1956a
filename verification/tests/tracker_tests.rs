//! Tests for the tracker query string and the compact peer list.
use bittorrent_starter_rust::tracker::{
    parse_compact_peers, urlencode_bytes, Compact, Event, PeerAddr, QueryStringBuilder,
    TrackerResponse,
};

#[test]
fn urlencode_keeps_unreserved_bytes() {
    let encoded = urlencode_bytes(b"AZaz09.~-_");
    assert_eq!(encoded, b"AZaz09.~-_".to_vec());
}

#[test]
fn urlencode_escapes_everything_else() {
    let encoded = urlencode_bytes(&[0x12, 0xAB, b' ', b'/']);
    assert_eq!(encoded, b"%12%ab%20%2f".to_vec());
}

#[test]
fn query_string_is_exact() {
    let info_hash: Vec<u8> = (0u8..20).collect();
    let peer_id = b"00112233445566778899".to_vec();
    let query = QueryStringBuilder::new(&info_hash, &peer_id, 6881, 0, 0, 1000, Compact::Compact)
        .build();
    let expected = "info_hash=%00%01%02%03%04%05%06%07%08%09%0a%0b%0c%0d%0e%0f%10%11%12%13\
&peer_id=00112233445566778899&port=6881&uploaded=0&downloaded=0&left=1000&compact=1";
    assert_eq!(query, expected);
}

#[test]
fn query_string_includes_ip_and_event_when_set() {
    let info_hash = b"aaaaaaaaaaaaaaaaaaaa".to_vec();
    let peer_id = b"bbbbbbbbbbbbbbbbbbbb".to_vec();
    let query = QueryStringBuilder::new(&info_hash, &peer_id, 80, 5, 7, 9, Compact::NotCompact)
        .with_ip((192, 168, 0, 1))
        .with_event(Event::Started)
        .build();
    let expected = "info_hash=aaaaaaaaaaaaaaaaaaaa&peer_id=bbbbbbbbbbbbbbbbbbbb\
&ip=192.168.0.1&port=80&uploaded=5&downloaded=7&left=9&event=started&compact=0";
    assert_eq!(query, expected);
}

#[test]
fn event_names_match_the_protocol() {
    assert_eq!(Event::Empty.as_text(), "empty");
    assert_eq!(Event::Started.as_text(), "started");
    assert_eq!(Event::Completed.as_text(), "completed");
    assert_eq!(Event::Stopped.as_text(), "stopped");
}

#[test]
fn compact_flag_values() {
    assert_eq!(Compact::NotCompact.as_byte(), 0);
    assert_eq!(Compact::Compact.as_byte(), 1);
    assert_eq!(Compact::Compact.as_text(), "1");
}

#[test]
fn compact_peers_decode_addresses_and_ports() {
    let bytes = [127, 0, 0, 1, 0x1A, 0xE1, 10, 0, 0, 2, 0, 80];
    let peers = parse_compact_peers(&bytes).unwrap();
    assert_eq!(peers.len(), 2);
    assert_eq!(peers[0], PeerAddr { ip0: 127, ip1: 0, ip2: 0, ip3: 1, port: 6881 });
    assert_eq!(peers[1], PeerAddr { ip0: 10, ip1: 0, ip2: 0, ip3: 2, port: 80 });
}

#[test]
fn compact_peers_reject_ragged_length() {
    assert!(parse_compact_peers(&[1, 2, 3, 4, 5]).is_err());
}

#[test]
fn compact_peers_accept_empty_list() {
    assert_eq!(parse_compact_peers(&[]).unwrap().len(), 0);
}

#[test]
fn tracker_response_decodes_interval_and_peers() {
    let mut body = b"d8:intervali900e5:peers6:".to_vec();
    body.extend_from_slice(&[127, 0, 0, 1, 0x1A, 0xE1]);
    body.push(b'e');
    let response = TrackerResponse::from_bytes(&body).unwrap();
    assert_eq!(*response.interval(), 900);
    assert_eq!(
        response.peers(),
        &vec![PeerAddr { ip0: 127, ip1: 0, ip2: 0, ip3: 1, port: 6881 }]
    );
}

#[test]
fn tracker_response_requires_interval() {
    let body = b"d5:peers0:e".to_vec();
    assert!(TrackerResponse::from_bytes(&body).is_err());
}

#[test]
fn tracker_response_rejects_non_bencode() {
    assert!(TrackerResponse::from_bytes(b"not bencode").is_err());
}

#[test]
fn tracker_response_rejects_ragged_peer_list() {
    let body = b"d8:intervali10e5:peers5:abcdee".to_vec();
    assert!(TrackerResponse::from_bytes(&body).is_err());
}
