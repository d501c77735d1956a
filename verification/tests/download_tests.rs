//! Tests for the piece-fetch state machine and the download coordinator,
//! driven by a simulated peer that answers from a content buffer.
use bittorrent_starter_rust::peer::client::{
    verify_incoming_message, DownloadError, Downloader, FetchAction, FetchPhase, PeerClientError,
    PieceFetcher,
};
use bittorrent_starter_rust::peer::{PeerMessage, PeerMessageId};
use bittorrent_starter_rust::tracker::PeerAddr;
use sha1::{Digest, Sha1};

fn sha1_of(bytes: &[u8]) -> Vec<u8> {
    Sha1::digest(bytes).to_vec()
}

fn local_peer() -> PeerAddr {
    PeerAddr { ip0: 127, ip1: 0, ip2: 0, ip3: 1, port: 6881 }
}

/// Drives a fetch through bitfield, interested, unchoke, and the block
/// loop, answering each request from `content`.  Returns the request
/// payloads that the machine emitted, stopping when it asks to verify.
fn drive_blocks(fetcher: &mut PieceFetcher, piece_index: u32, content: &[u8]) -> Vec<(u32, u32)> {
    let bitfield = PeerMessage::new(PeerMessageId::Bitfield, vec![0xFF]);
    let action = fetcher.on_message(&bitfield).expect("bitfield should be accepted");
    match &action {
        FetchAction::Send(m) => {
            assert_eq!(m.id, PeerMessageId::Interested);
            assert!(m.payload.is_empty());
        }
        other => panic!("expected an interested message, got {:?}", other),
    }
    let unchoke = PeerMessage::new(PeerMessageId::Unchoke, Vec::new());
    let mut action = fetcher.on_message(&unchoke).expect("unchoke should be accepted");
    let mut requests = Vec::new();
    loop {
        match action {
            FetchAction::Send(req) => {
                assert_eq!(req.id, PeerMessageId::Request);
                let p = &req.payload;
                assert_eq!(p.len(), 12);
                let index = u32::from_be_bytes([p[0], p[1], p[2], p[3]]);
                let begin = u32::from_be_bytes([p[4], p[5], p[6], p[7]]);
                let len = u32::from_be_bytes([p[8], p[9], p[10], p[11]]);
                assert_eq!(index, piece_index);
                requests.push((begin, len));
                let mut payload = Vec::new();
                payload.extend_from_slice(&p[0..8]);
                payload.extend_from_slice(&content[begin as usize..(begin + len) as usize]);
                // Frame and deframe the reply, as it would travel the wire.
                let framed = PeerMessage::new(PeerMessageId::Piece, payload).to_bytes();
                let (parsed, consumed) = PeerMessage::from_bytes(&framed).unwrap();
                assert_eq!(consumed, framed.len());
                action = fetcher.on_message(&parsed).expect("block should be accepted");
            }
            FetchAction::Verify => return requests,
        }
    }
}

#[test]
fn piece_lengths_follow_remainder_rule() {
    let hashes = vec![vec![0u8; 20]; 3];
    let d = Downloader::new(vec![0; 20], vec![1; 20], 400, 1000, hashes, Vec::new());
    assert_eq!(d.n_pieces(), 3);
    assert_eq!(d.piece_expected_len(0), 400);
    assert_eq!(d.piece_expected_len(1), 400);
    assert_eq!(d.piece_expected_len(2), 200);
    let total: u64 = (0..3).map(|i| d.piece_expected_len(i)).sum();
    assert_eq!(total, 1000);
}

#[test]
fn exact_multiple_keeps_full_last_piece() {
    let hashes = vec![vec![0u8; 20]; 2];
    let d = Downloader::new(vec![0; 20], vec![1; 20], 400, 800, hashes, Vec::new());
    assert_eq!(d.n_pieces(), 2);
    assert_eq!(d.piece_expected_len(1), 400);
}

#[test]
fn block_requests_split_piece_exactly() {
    let piece_len: u32 = 16384 * 2 + 100;
    let content = vec![7u8; piece_len as usize];
    let mut fetcher = PieceFetcher::new(0, piece_len, sha1_of(&content));
    let requests = drive_blocks(&mut fetcher, 0, &content);
    assert_eq!(requests, vec![(0, 16384), (16384, 16384), (32768, 100)]);
    assert!(fetcher.finish().is_ok());
}

#[test]
fn single_block_piece_sends_one_request() {
    let content = vec![9u8; 100];
    let mut fetcher = PieceFetcher::new(3, 100, sha1_of(&content));
    let requests = drive_blocks(&mut fetcher, 3, &content);
    assert_eq!(requests, vec![(0, 100)]);
}

#[test]
fn unchoke_in_place_of_bitfield_is_a_protocol_error() {
    let mut fetcher = PieceFetcher::new(0, 400, vec![0u8; 20]);
    let unchoke = PeerMessage::new(PeerMessageId::Unchoke, Vec::new());
    let err = fetcher.on_message(&unchoke).unwrap_err();
    assert!(matches!(err, DownloadError::Protocol { piece_num: 0 }));
    // The fetch failed before any interested message was produced.
    assert_eq!(fetcher.phase(), FetchPhase::Failed);
}

#[test]
fn wrong_block_offset_is_a_protocol_error() {
    let content = vec![5u8; 100];
    let mut fetcher = PieceFetcher::new(0, 100, sha1_of(&content));
    let bitfield = PeerMessage::new(PeerMessageId::Bitfield, vec![0xFF]);
    fetcher.on_message(&bitfield).unwrap();
    let unchoke = PeerMessage::new(PeerMessageId::Unchoke, Vec::new());
    fetcher.on_message(&unchoke).unwrap();
    // Answer with begin = 4 where begin = 0 was requested.
    let mut payload = 0u32.to_be_bytes().to_vec();
    payload.extend_from_slice(&4u32.to_be_bytes());
    payload.extend_from_slice(&content);
    let bad = PeerMessage::new(PeerMessageId::Piece, payload);
    let err = fetcher.on_message(&bad).unwrap_err();
    assert!(matches!(err, DownloadError::Protocol { piece_num: 0 }));
}

#[test]
fn hash_mismatch_yields_verification_error_and_piece_stays_undownloaded() {
    let right = vec![1u8; 100];
    let wrong = vec![2u8; 100];
    let hashes = vec![sha1_of(&right)];
    let mut d = Downloader::new(vec![0; 20], vec![1; 20], 100, 100, hashes, vec![local_peer()]);
    let mut fetcher = d.start_piece(0).unwrap();
    drive_blocks(&mut fetcher, 0, &wrong);
    let err = fetcher.finish().unwrap_err();
    assert!(matches!(err, DownloadError::Verification { piece_num: 0 }));
    assert_eq!(fetcher.phase(), FetchPhase::Failed);
    assert!(!d.piece_done(0));
}

#[test]
fn download_all_reassembles_the_exact_content() {
    let content: Vec<u8> = (0..1000u32).map(|i| (i % 251) as u8).collect();
    let piece_length: u64 = 400;
    let mut hashes = Vec::new();
    for chunk in content.chunks(piece_length as usize) {
        hashes.push(sha1_of(chunk));
    }
    let info_hash = vec![3u8; 20];
    let peer_id = b"00112233445566778899".to_vec();
    let mut d = Downloader::new(
        info_hash,
        peer_id,
        piece_length,
        content.len() as u64,
        hashes,
        vec![local_peer()],
    );
    assert_eq!(d.n_pieces(), 3);
    assert!(d.first_peer().is_some());
    let mut out = Vec::new();
    for i in 0..d.n_pieces() {
        let begin = i * piece_length as usize;
        let end = (begin + piece_length as usize).min(content.len());
        let mut fetcher = d.start_piece(i).unwrap();
        drive_blocks(&mut fetcher, i as u32, &content[begin..end]);
        let bytes = fetcher.finish().expect("the piece should verify");
        d.record_complete(&fetcher);
        out.extend_from_slice(&bytes);
    }
    assert_eq!(out.len(), 1000);
    assert_eq!(out, content);
    for i in 0..d.n_pieces() {
        assert!(d.piece_done(i));
    }
}

#[test]
fn out_of_range_piece_is_an_index_error() {
    let hashes = vec![vec![0u8; 20]];
    let d = Downloader::new(vec![0; 20], vec![1; 20], 100, 100, hashes, vec![local_peer()]);
    let err = d.start_piece(1).unwrap_err();
    assert!(matches!(err, DownloadError::InvalidPiece { piece_num: 1 }));
}

#[test]
fn redownloading_a_finished_piece_is_an_index_error() {
    let content = vec![8u8; 50];
    let hashes = vec![sha1_of(&content)];
    let mut d = Downloader::new(vec![0; 20], vec![1; 20], 50, 50, hashes, vec![local_peer()]);
    let mut fetcher = d.start_piece(0).unwrap();
    drive_blocks(&mut fetcher, 0, &content);
    fetcher.finish().unwrap();
    d.record_complete(&fetcher);
    assert!(d.piece_done(0));
    let err = d.start_piece(0).unwrap_err();
    assert!(matches!(err, DownloadError::InvalidPiece { piece_num: 0 }));
}

#[test]
fn expected_message_id_is_accepted_and_others_are_not() {
    let msg = PeerMessage::new(PeerMessageId::Bitfield, vec![0xFF]);
    let back = verify_incoming_message(msg.clone(), PeerMessageId::Bitfield).unwrap();
    assert_eq!(back, msg);
    let err = verify_incoming_message(msg, PeerMessageId::Unchoke).unwrap_err();
    assert!(matches!(err, PeerClientError::Connection(_)));
}

#[test]
fn missing_peer_is_a_connection_error() {
    let hashes = vec![vec![0u8; 20]];
    let d = Downloader::new(vec![0; 20], vec![1; 20], 100, 100, hashes, Vec::new());
    assert!(d.first_peer().is_none());
    let err = d.start_piece(0).unwrap_err();
    assert!(matches!(err, DownloadError::Connection { piece_num: 0 }));
}
