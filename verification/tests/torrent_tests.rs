//! Tests for descriptor parsing and the canonical info-dictionary
//! encoding.
use bittorrent_starter_rust::torrent::{
    from_bytes, split_piece_hashes, FileInfo, FileType, MetaInfo,
};
use bittorrent_starter_rust::ParseError;
use sha1::{Digest, Sha1};

fn sample_pieces_bytes() -> Vec<u8> {
    (0u8..60).collect()
}

fn sample_torrent_bytes() -> Vec<u8> {
    let mut bytes = Vec::new();
    bytes.extend_from_slice(b"d8:announce31:http://tracker.example/announce4:infod");
    bytes.extend_from_slice(b"6:lengthi1000e4:name8:test.txt12:piece lengthi400e6:pieces60:");
    bytes.extend_from_slice(&sample_pieces_bytes());
    bytes.extend_from_slice(b"ee");
    bytes
}

#[test]
fn descriptor_fields_are_extracted() {
    let (announce, meta) = from_bytes(&sample_torrent_bytes()).unwrap();
    assert_eq!(announce, "http://tracker.example/announce");
    assert_eq!(meta.name(), &b"test.txt".to_vec());
    assert_eq!(meta.piece_length(), 400);
    assert_eq!(meta.pieces().len(), 3);
    assert_eq!(meta.pieces()[1], sample_pieces_bytes()[20..40].to_vec());
    assert!(matches!(meta.file_type(), FileType::SingleFile(1000)));
}

#[test]
fn info_dict_encoding_is_canonical() {
    let (_, meta) = from_bytes(&sample_torrent_bytes()).unwrap();
    let mut expected = Vec::new();
    expected.extend_from_slice(b"d6:lengthi1000e4:name8:test.txt12:piece lengthi400e6:pieces60:");
    expected.extend_from_slice(&sample_pieces_bytes());
    expected.push(b'e');
    assert_eq!(meta.info_dict_bytes(), expected);
}

#[test]
fn info_hash_is_the_digest_of_the_info_dict() {
    let (_, meta) = from_bytes(&sample_torrent_bytes()).unwrap();
    let expected: Vec<u8> = Sha1::digest(&meta.info_dict_bytes()).to_vec();
    let hash = meta.info_hash().unwrap();
    assert_eq!(hash.len(), 20);
    assert_eq!(hash, expected);
}

#[test]
fn multi_file_info_dict_encoding() {
    let pieces = vec![vec![9u8; 20]];
    let file = FileInfo::new(5, vec![b"dir".to_vec(), b"a.txt".to_vec()]);
    let meta = MetaInfo::new(
        b"stuff".to_vec(),
        16384,
        pieces,
        FileType::MultiFile(vec![file]),
    );
    let mut expected = Vec::new();
    expected.extend_from_slice(b"d5:filesld6:lengthi5e4:pathl3:dir5:a.txteee");
    expected.extend_from_slice(b"4:name5:stuff12:piece lengthi16384e6:pieces20:");
    expected.extend_from_slice(&[9u8; 20]);
    expected.push(b'e');
    assert_eq!(meta.info_dict_bytes(), expected);
}

#[test]
fn multi_file_descriptor_is_extracted() {
    let mut bytes = Vec::new();
    bytes.extend_from_slice(b"d8:announce18:http://t.example/a4:infod");
    bytes.extend_from_slice(b"5:filesld6:lengthi5e4:pathl3:dir5:a.txteee");
    bytes.extend_from_slice(b"4:name5:stuff12:piece lengthi16384e6:pieces20:");
    bytes.extend_from_slice(&[9u8; 20]);
    bytes.extend_from_slice(b"ee");
    let (announce, meta) = from_bytes(&bytes).unwrap();
    assert_eq!(announce, "http://t.example/a");
    match meta.file_type() {
        FileType::MultiFile(files) => {
            assert_eq!(files.len(), 1);
            assert_eq!(files[0].length(), 5);
            assert_eq!(files[0].path(), &vec![b"dir".to_vec(), b"a.txt".to_vec()]);
        }
        other => panic!("expected a multi-file layout, got {:?}", other),
    }
}

#[test]
fn missing_announce_is_a_missing_field() {
    let bytes = b"d4:infod6:lengthi1e4:name1:a12:piece lengthi1e6:pieces20:aaaaaaaaaaaaaaaaaaaaee";
    let err = from_bytes(bytes).unwrap_err();
    assert!(matches!(err, ParseError::MissingField(_)));
}

#[test]
fn non_bencode_is_rejected() {
    assert!(from_bytes(b"garbage").is_err());
}

#[test]
fn top_level_must_be_a_dictionary() {
    assert!(from_bytes(b"i42e").is_err());
}

#[test]
fn both_length_and_files_are_rejected() {
    let mut bytes = Vec::new();
    bytes.extend_from_slice(b"d8:announce18:http://t.example/a4:infod");
    bytes.extend_from_slice(b"5:filesle6:lengthi5e4:name1:a12:piece lengthi1e6:pieces20:");
    bytes.extend_from_slice(&[1u8; 20]);
    bytes.extend_from_slice(b"ee");
    let err = from_bytes(&bytes).unwrap_err();
    assert!(matches!(err, ParseError::Deserialization(_)));
}

#[test]
fn ragged_pieces_string_is_rejected() {
    let mut bytes = Vec::new();
    bytes.extend_from_slice(b"d8:announce18:http://t.example/a4:infod");
    bytes.extend_from_slice(b"6:lengthi1e4:name1:a12:piece lengthi1e6:pieces21:");
    bytes.extend_from_slice(&[1u8; 21]);
    bytes.extend_from_slice(b"ee");
    assert!(from_bytes(&bytes).is_err());
}

#[test]
fn split_piece_hashes_cuts_twenty_byte_chunks() {
    let bytes: Vec<u8> = (0u8..40).collect();
    let hashes = split_piece_hashes(&bytes).unwrap();
    assert_eq!(hashes.len(), 2);
    assert_eq!(hashes[0], bytes[0..20].to_vec());
    assert_eq!(hashes[1], bytes[20..40].to_vec());
}

#[test]
fn split_piece_hashes_rejects_ragged_input() {
    assert!(split_piece_hashes(&[0u8; 21]).is_err());
}

#[test]
fn split_piece_hashes_rejects_empty_input() {
    assert!(split_piece_hashes(&[]).is_err());
}
