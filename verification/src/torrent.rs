//! The torrent descriptor: extracting and validating metainfo from a
//! decoded bencode value, and the canonical encoding of the info
//! dictionary whose SHA-1 digest identifies the torrent.
use crate::bencode::{
    bencode_decode, bval_bytes, bval_dict_get, bval_int, bval_is_dict, bval_list_get,
    bval_list_len,
};
use crate::byteops::{push_u64_dec, spec_dec_digits, utf8_to_string};
use crate::digest::{sha1_digest, sha1_of};
use crate::ParseError;
use vstd::prelude::*;

verus! {

pub const INFO_HASH_SIZE: usize = 20;

/// The abstract value of one file entry of a multi-file torrent.
#[verifier::ext_equal]
pub struct FileInfoView {
    pub length: u64,
    pub path: Seq<Seq<u8>>,
}

/// One file of a multi-file torrent: its byte length and the components
/// of its relative path.
#[derive(Debug, Clone)]
pub struct FileInfo {
    length: u64,
    path: Vec<Vec<u8>>,
}

impl View for FileInfo {
    type V = FileInfoView;

    closed spec fn view(&self) -> FileInfoView {
        FileInfoView { length: self.length, path: self.path.deep_view() }
    }
}

impl DeepView for FileInfo {
    type V = FileInfoView;

    open spec fn deep_view(&self) -> FileInfoView {
        self@
    }
}

impl FileInfo {
    pub fn new(length: u64, path: Vec<Vec<u8>>) -> (r: FileInfo)
        ensures
            r@.length == length,
            r@.path == path.deep_view(),
    {
        FileInfo { length, path }
    }

    pub fn length(&self) -> (r: u64)
        ensures
            r == self@.length,
    {
        self.length
    }

    pub fn path(&self) -> (r: &Vec<Vec<u8>>)
        ensures
            r.deep_view() == self@.path,
    {
        &self.path
    }
}

/// The abstract value of the file layout of a torrent.
#[verifier::ext_equal]
pub enum FileTypeView {
    SingleFile(u64),
    MultiFile(Seq<FileInfoView>),
}

/// Whether the torrent carries one file or a directory of files.
#[derive(Debug, Clone)]
pub enum FileType {
    SingleFile(u64),
    MultiFile(Vec<FileInfo>),
}

impl View for FileType {
    type V = FileTypeView;

    open spec fn view(&self) -> FileTypeView {
        match self {
            FileType::SingleFile(len) => FileTypeView::SingleFile(*len),
            FileType::MultiFile(files) => FileTypeView::MultiFile(files.deep_view()),
        }
    }
}

/// The abstract value of a torrent descriptor's info data.
#[verifier::ext_equal]
pub struct MetaInfoView {
    pub name: Seq<u8>,
    pub piece_length: u64,
    pub pieces: Seq<Seq<u8>>,
    pub file_type: FileTypeView,
}

impl MetaInfoView {
    /// Every piece digest has its width.
    pub open spec fn wf(self) -> bool {
        forall|i: int| 0 <= i < self.pieces.len() ==> self.pieces[i].len() == 20
    }
}

/// The metadata of a torrent: the suggested name, the piece length, one
/// SHA-1 digest per piece, and the file layout.
#[derive(Debug, Clone)]
pub struct MetaInfo {
    name: Vec<u8>,
    piece_length: u64,
    pieces: Vec<Vec<u8>>,
    file_type: FileType,
}

impl View for MetaInfo {
    type V = MetaInfoView;

    closed spec fn view(&self) -> MetaInfoView {
        MetaInfoView {
            name: self.name@,
            piece_length: self.piece_length,
            pieces: self.pieces.deep_view(),
            file_type: self.file_type@,
        }
    }
}

/// Errors raised while deriving the info-hash of a descriptor.
#[derive(Debug, Clone, PartialEq, Eq)]
pub enum MetaInfoError {
    /// The info dictionary could not be encoded and hashed.
    InfoHash(String),
}

// The byte strings of the info dictionary's keys.
pub open spec fn spec_key_length() -> Seq<u8> {
    seq![108u8, 101u8, 110u8, 103u8, 116u8, 104u8]
}

pub open spec fn spec_key_name() -> Seq<u8> {
    seq![110u8, 97u8, 109u8, 101u8]
}

pub open spec fn spec_key_piece_length() -> Seq<u8> {
    seq![112u8, 105u8, 101u8, 99u8, 101u8, 32u8, 108u8, 101u8, 110u8, 103u8, 116u8, 104u8]
}

pub open spec fn spec_key_pieces() -> Seq<u8> {
    seq![112u8, 105u8, 101u8, 99u8, 101u8, 115u8]
}

pub open spec fn spec_key_files() -> Seq<u8> {
    seq![102u8, 105u8, 108u8, 101u8, 115u8]
}

pub open spec fn spec_key_path() -> Seq<u8> {
    seq![112u8, 97u8, 116u8, 104u8]
}

/// A bencoded integer: `i`, the decimal digits, `e`.
pub open spec fn spec_benc_int(n: nat) -> Seq<u8> {
    seq![105u8] + spec_dec_digits(n) + seq![101u8]
}

/// A bencoded byte string: the decimal length, `:`, the bytes.
pub open spec fn spec_benc_bytes(b: Seq<u8>) -> Seq<u8> {
    spec_dec_digits(b.len()) + seq![58u8] + b
}

/// The concatenation of all piece digests, in piece order.
pub open spec fn spec_concat_hashes(hashes: Seq<Seq<u8>>) -> Seq<u8>
    decreases hashes.len(),
{
    if hashes.len() == 0 {
        Seq::empty()
    } else {
        spec_concat_hashes(hashes.drop_last()) + hashes.last()
    }
}

/// One bencoded file entry: a dictionary with keys `length` and `path`
/// in sorted order, the path a list of byte strings.
pub open spec fn spec_file_entry(f: FileInfoView) -> Seq<u8> {
    seq![100u8] + spec_benc_bytes(spec_key_length()) + spec_benc_int(f.length as nat)
        + spec_benc_bytes(spec_key_path()) + seq![108u8] + spec_path_list(f.path) + seq![101u8]
        + seq![101u8]
}

/// The bencoded components of one file's path, in order.
pub open spec fn spec_path_list(parts: Seq<Seq<u8>>) -> Seq<u8>
    decreases parts.len(),
{
    if parts.len() == 0 {
        Seq::empty()
    } else {
        spec_path_list(parts.drop_last()) + spec_benc_bytes(parts.last())
    }
}

/// The bencoded file entries of a multi-file torrent, in order.
pub open spec fn spec_files_list(files: Seq<FileInfoView>) -> Seq<u8>
    decreases files.len(),
{
    if files.len() == 0 {
        Seq::empty()
    } else {
        spec_files_list(files.drop_last()) + spec_file_entry(files.last())
    }
}

/// The canonical encoding of the info dictionary: keys in sorted order,
/// as a bencode dictionary serializer emits them.
pub open spec fn spec_info_dict(m: MetaInfoView) -> Seq<u8> {
    match m.file_type {
        FileTypeView::SingleFile(len) => seq![100u8] + spec_benc_bytes(spec_key_length())
            + spec_benc_int(len as nat) + spec_benc_bytes(spec_key_name()) + spec_benc_bytes(
            m.name,
        ) + spec_benc_bytes(spec_key_piece_length()) + spec_benc_int(m.piece_length as nat)
            + spec_benc_bytes(spec_key_pieces()) + spec_benc_bytes(spec_concat_hashes(m.pieces))
            + seq![101u8],
        FileTypeView::MultiFile(files) => seq![100u8] + spec_benc_bytes(spec_key_files()) + seq![
            108u8,
        ] + spec_files_list(files) + seq![101u8] + spec_benc_bytes(spec_key_name())
            + spec_benc_bytes(m.name) + spec_benc_bytes(spec_key_piece_length()) + spec_benc_int(
            m.piece_length as nat,
        ) + spec_benc_bytes(spec_key_pieces()) + spec_benc_bytes(spec_concat_hashes(m.pieces))
            + seq![101u8],
    }
}

/// Appends a bencoded integer to `out`.
fn push_benc_int(out: &mut Vec<u8>, n: u64)
    ensures
        final(out)@ == old(out)@ + spec_benc_int(n as nat),
{
    out.push(105);
    push_u64_dec(out, n);
    out.push(101);
    proof {
        assert(out@ =~= old(out)@ + spec_benc_int(n as nat));
    }
}

/// Appends a bencoded byte string to `out`.
fn push_benc_bytes(out: &mut Vec<u8>, b: &[u8])
    ensures
        final(out)@ == old(out)@ + spec_benc_bytes(b@),
{
    push_u64_dec(out, b.len() as u64);
    out.push(58);
    out.extend_from_slice(b);
    proof {
        assert(out@ =~= old(out)@ + spec_benc_bytes(b@));
    }
}

impl MetaInfo {
    pub fn new(name: Vec<u8>, piece_length: u64, pieces: Vec<Vec<u8>>, file_type: FileType) -> (r:
        MetaInfo)
        requires
            forall|i: int| 0 <= i < pieces.deep_view().len() ==> pieces.deep_view()[i].len() == 20,
        ensures
            r@ == (MetaInfoView {
                name: name@,
                piece_length,
                pieces: pieces.deep_view(),
                file_type: file_type@,
            }),
            r@.wf(),
    {
        MetaInfo { name, piece_length, pieces, file_type }
    }

    pub fn name(&self) -> (r: &Vec<u8>)
        ensures
            r@ == self@.name,
    {
        &self.name
    }

    pub fn piece_length(&self) -> (r: u64)
        ensures
            r == self@.piece_length,
    {
        self.piece_length
    }

    pub fn pieces(&self) -> (r: &Vec<Vec<u8>>)
        ensures
            r.deep_view() == self@.pieces,
    {
        &self.pieces
    }

    pub fn file_type(&self) -> (r: &FileType)
        ensures
            r@ == self@.file_type,
    {
        &self.file_type
    }

    /// The canonical bencode encoding of the info dictionary.
    pub fn info_dict_bytes(&self) -> (r: Vec<u8>)
        ensures
            r@ == spec_info_dict(self@),
    {
        let mut out: Vec<u8> = Vec::new();
        out.push(100);
        match &self.file_type {
            FileType::SingleFile(len) => {
                let key_length: Vec<u8> = vec![108, 101, 110, 103, 116, 104];
                proof {
                    assert(key_length@ =~= spec_key_length());
                }
                push_benc_bytes(&mut out, key_length.as_slice());
                push_benc_int(&mut out, *len);
            },
            FileType::MultiFile(files) => {
                let key_files: Vec<u8> = vec![102, 105, 108, 101, 115];
                proof {
                    assert(key_files@ =~= spec_key_files());
                }
                push_benc_bytes(&mut out, key_files.as_slice());
                out.push(108);
                let ghost list_start = out@;
                let n = files.len();
                let mut i: usize = 0;
                while i < n
                    invariant
                        i <= n,
                        n == files@.len(),
                        out@ == list_start + spec_files_list(files.deep_view().take(i as int)),
                    decreases n - i,
                {
                    let file = &files[i];
                    let entry = file.entry_bytes();
                    out.extend_from_slice(entry.as_slice());
                    proof {
                        let pre = files.deep_view().take(i + 1);
                        assert(pre.drop_last() =~= files.deep_view().take(i as int));
                        assert(pre.last() == files@[i as int]@);
                        assert(out@ =~= list_start + spec_files_list(pre));
                    }
                    i = i + 1;
                }
                proof {
                    assert(files.deep_view().take(n as int) =~= files.deep_view());
                }
                out.push(101);
            },
        }
        let key_name: Vec<u8> = vec![110, 97, 109, 101];
        proof {
            assert(key_name@ =~= spec_key_name());
        }
        push_benc_bytes(&mut out, key_name.as_slice());
        push_benc_bytes(&mut out, self.name.as_slice());
        let key_piece_length: Vec<u8> = vec![112, 105, 101, 99, 101, 32, 108, 101, 110, 103, 116, 104];
        proof {
            assert(key_piece_length@ =~= spec_key_piece_length());
        }
        push_benc_bytes(&mut out, key_piece_length.as_slice());
        push_benc_int(&mut out, self.piece_length);
        let key_pieces: Vec<u8> = vec![112, 105, 101, 99, 101, 115];
        proof {
            assert(key_pieces@ =~= spec_key_pieces());
        }
        push_benc_bytes(&mut out, key_pieces.as_slice());
        let flat = self.concat_hashes();
        push_benc_bytes(&mut out, flat.as_slice());
        out.push(101);
        proof {
            assert(out@ =~= spec_info_dict(self@));
        }
        out
    }

    /// All piece digests, concatenated in piece order.
    fn concat_hashes(&self) -> (r: Vec<u8>)
        ensures
            r@ == spec_concat_hashes(self@.pieces),
    {
        let n = self.pieces.len();
        let mut out: Vec<u8> = Vec::new();
        let mut i: usize = 0;
        while i < n
            invariant
                i <= n,
                n == self.pieces@.len(),
                out@ == spec_concat_hashes(self.pieces.deep_view().take(i as int)),
            decreases n - i,
        {
            out.extend_from_slice(self.pieces[i].as_slice());
            proof {
                let pre = self.pieces.deep_view().take(i + 1);
                assert(pre.drop_last() =~= self.pieces.deep_view().take(i as int));
                assert(pre.last() == self.pieces@[i as int]@);
                assert(out@ =~= spec_concat_hashes(pre));
            }
            i = i + 1;
        }
        proof {
            assert(self.pieces.deep_view().take(n as int) =~= self.pieces.deep_view());
        }
        out
    }

    /// The torrent's identity: the SHA-1 digest of the canonically
    /// encoded info dictionary.
    pub fn info_hash(&self) -> (r: Result<Vec<u8>, MetaInfoError>)
        ensures
            r matches Ok(h) && h@ == sha1_of(spec_info_dict(self@)) && h@.len() == 20,
    {
        let bytes = self.info_dict_bytes();
        Ok(sha1_digest(bytes.as_slice()))
    }
}

impl FileInfo {
    /// The bencoded entry of this file within the `files` list.
    fn entry_bytes(&self) -> (r: Vec<u8>)
        ensures
            r@ == spec_file_entry(self@),
    {
        let mut out: Vec<u8> = Vec::new();
        out.push(100);
        let key_length: Vec<u8> = vec![108, 101, 110, 103, 116, 104];
        proof {
            assert(key_length@ =~= spec_key_length());
        }
        push_benc_bytes(&mut out, key_length.as_slice());
        push_benc_int(&mut out, self.length);
        let key_path: Vec<u8> = vec![112, 97, 116, 104];
        proof {
            assert(key_path@ =~= spec_key_path());
        }
        push_benc_bytes(&mut out, key_path.as_slice());
        out.push(108);
        let n = self.path.len();
        let mut i: usize = 0;
        while i < n
            invariant
                i <= n,
                n == self.path@.len(),
                out@ == seq![100u8] + spec_benc_bytes(spec_key_length()) + spec_benc_int(
                    self.length as nat,
                ) + spec_benc_bytes(spec_key_path()) + seq![108u8] + spec_path_list(
                    self.path.deep_view().take(i as int),
                ),
            decreases n - i,
        {
            push_benc_bytes(&mut out, self.path[i].as_slice());
            proof {
                let pre = self.path.deep_view().take(i + 1);
                assert(pre.drop_last() =~= self.path.deep_view().take(i as int));
                assert(pre.last() == self.path@[i as int]@);
                assert(out@ =~= seq![100u8] + spec_benc_bytes(spec_key_length()) + spec_benc_int(
                    self.length as nat,
                ) + spec_benc_bytes(spec_key_path()) + seq![108u8] + spec_path_list(pre));
            }
            i = i + 1;
        }
        proof {
            assert(self.path.deep_view().take(n as int) =~= self.path.deep_view());
        }
        out.push(101);
        out.push(101);
        proof {
            assert(out@ =~= spec_file_entry(self@));
        }
        out
    }
}

/// Splits the `pieces` byte string of a descriptor into its 20-byte
/// digests.  Fails with a format error when the string is empty or its
/// length is not a multiple of 20.
pub fn split_piece_hashes(bytes: &[u8]) -> (r: Result<Vec<Vec<u8>>, ParseError>)
    ensures
        r is Ok <==> (bytes@.len() % 20 == 0 && bytes@.len() > 0),
        r matches Ok(v) ==> v@.len() == bytes@.len() / 20 && forall|i: int|
            0 <= i < v@.len() ==> v@[i]@ == bytes@.subrange(20 * i, 20 * i + 20),
        r matches Err(e) ==> e is Deserialization,
{
    let n = bytes.len();
    if n % 20 != 0 || n == 0 {
        return Err(
            ParseError::Deserialization(
                String::from_str("the pieces string length was not a positive multiple of 20"),
            ),
        );
    }
    let count = n / 20;
    let mut hashes: Vec<Vec<u8>> = Vec::new();
    let mut i: usize = 0;
    while i < count
        invariant
            i <= count,
            count == bytes@.len() / 20,
            bytes@.len() % 20 == 0,
            n == bytes@.len(),
            hashes@.len() == i,
            forall|j: int| 0 <= j < i ==> hashes@[j]@ == bytes@.subrange(20 * j, 20 * j + 20),
        decreases count - i,
    {
        proof {
            assert(20 * (i as int) + 20 <= n) by (nonlinear_arith)
                requires
                    (i as int) < count,
                    count == n / 20,
                    n % 20 == 0,
                    n >= 0,
            ;
        }
        let base = 20 * i;
        let hash = crate::byteops::bytes_range_to_vec(bytes, base, base + 20);
        hashes.push(hash);
        i = i + 1;
    }
    Ok(hashes)
}

/// Extracts the announce URL and the metainfo from the bytes of a
/// torrent descriptor.  The outside decoder judges whether the bytes are
/// bencode at all; every field extracted from the decoded value is
/// validated here: the announce URL and name must be UTF-8, the piece
/// length and file lengths must be non-negative integers, the pieces
/// string must split into 20-byte digests, and exactly one of `length`
/// and `files` must be present.
pub fn from_bytes(bytes: &[u8]) -> (r: Result<(String, MetaInfo), ParseError>)
    ensures
        r matches Ok(p) ==> p.1@.wf() && p.1@.pieces.len() >= 1,
{
    let root = match bencode_decode(bytes) {
        Some(v) => v,
        None => {
            return Err(
                ParseError::Deserialization(
                    String::from_str("the descriptor was not well-formed bencode"),
                ),
            );
        },
    };
    if !bval_is_dict(&root) {
        return Err(
            ParseError::Deserialization(
                String::from_str("the descriptor did not decode into a dictionary"),
            ),
        );
    }
    let announce_val = match bval_dict_get(&root, "announce".as_bytes()) {
        Some(v) => v,
        None => {
            return Err(ParseError::MissingField(String::from_str("announce")));
        },
    };
    let announce_bytes = match bval_bytes(announce_val) {
        Some(b) => b,
        None => {
            return Err(
                ParseError::Deserialization(
                    String::from_str("`announce` did not decode into bytes"),
                ),
            );
        },
    };
    let announce = match utf8_to_string(announce_bytes) {
        Some(s) => s,
        None => {
            return Err(
                ParseError::Deserialization(String::from_str("`announce` was not valid UTF-8")),
            );
        },
    };
    let info = match bval_dict_get(&root, "info".as_bytes()) {
        Some(v) => v,
        None => {
            return Err(ParseError::MissingField(String::from_str("info")));
        },
    };
    if !bval_is_dict(info) {
        return Err(
            ParseError::Deserialization(
                String::from_str("`info` did not decode into a dictionary"),
            ),
        );
    }
    let name_val = match bval_dict_get(info, "name".as_bytes()) {
        Some(v) => v,
        None => {
            return Err(ParseError::MissingField(String::from_str("name")));
        },
    };
    let name = match bval_bytes(name_val) {
        Some(b) => b,
        None => {
            return Err(
                ParseError::Deserialization(String::from_str("`name` did not decode into bytes")),
            );
        },
    };
    let name_check = vstd::slice::slice_to_vec(name.as_slice());
    if utf8_to_string(name_check).is_none() {
        return Err(ParseError::Deserialization(String::from_str("`name` was not valid UTF-8")));
    }
    let piece_length_val = match bval_dict_get(info, "piece length".as_bytes()) {
        Some(v) => v,
        None => {
            return Err(ParseError::MissingField(String::from_str("piece length")));
        },
    };
    let piece_length_int = match bval_int(piece_length_val) {
        Some(n) => n,
        None => {
            return Err(
                ParseError::Deserialization(
                    String::from_str("`piece length` did not decode into an integer"),
                ),
            );
        },
    };
    if piece_length_int < 0 {
        return Err(ParseError::Deserialization(String::from_str("`piece length` was negative")));
    }
    let piece_length = piece_length_int as u64;
    let pieces_val = match bval_dict_get(info, "pieces".as_bytes()) {
        Some(v) => v,
        None => {
            return Err(ParseError::MissingField(String::from_str("pieces")));
        },
    };
    let pieces_bytes = match bval_bytes(pieces_val) {
        Some(b) => b,
        None => {
            return Err(
                ParseError::Deserialization(
                    String::from_str("`pieces` did not decode into bytes"),
                ),
            );
        },
    };
    let pieces = match split_piece_hashes(pieces_bytes.as_slice()) {
        Ok(p) => p,
        Err(e) => {
            return Err(e);
        },
    };
    let length_entry = bval_dict_get(info, "length".as_bytes());
    let files_entry = bval_dict_get(info, "files".as_bytes());
    let file_type = match (length_entry, files_entry) {
        (None, None) => {
            return Err(
                ParseError::Deserialization(
                    String::from_str("found neither `length` nor `files`"),
                ),
            );
        },
        (Some(_), Some(_)) => {
            return Err(
                ParseError::Deserialization(String::from_str("found both `length` and `files`")),
            );
        },
        (Some(length_val), None) => {
            let length_int = match bval_int(length_val) {
                Some(n) => n,
                None => {
                    return Err(
                        ParseError::Deserialization(
                            String::from_str("`length` did not decode into an integer"),
                        ),
                    );
                },
            };
            if length_int < 0 {
                return Err(
                    ParseError::Deserialization(String::from_str("`length` was negative")),
                );
            }
            FileType::SingleFile(length_int as u64)
        },
        (None, Some(files_val)) => {
            let file_count = match bval_list_len(files_val) {
                Some(n) => n,
                None => {
                    return Err(
                        ParseError::Deserialization(
                            String::from_str("`files` did not decode into a list"),
                        ),
                    );
                },
            };
            let mut file_infos: Vec<FileInfo> = Vec::new();
            let mut i: usize = 0;
            while i < file_count
                invariant
                    i <= file_count,
                decreases file_count - i,
            {
                let file_val = match bval_list_get(files_val, i) {
                    Some(v) => v,
                    None => {
                        return Err(
                            ParseError::Deserialization(
                                String::from_str("a `files` entry could not be read"),
                            ),
                        );
                    },
                };
                let file_info = match parse_file_entry(file_val) {
                    Ok(f) => f,
                    Err(e) => {
                        return Err(e);
                    },
                };
                file_infos.push(file_info);
                i = i + 1;
            }
            FileType::MultiFile(file_infos)
        },
    };
    let meta = MetaInfo::new(name, piece_length, pieces, file_type);
    Ok((announce, meta))
}

/// Extracts one entry of the `files` list: a dictionary with a
/// non-negative `length` and a non-empty `path` list of UTF-8 strings.
fn parse_file_entry(file_val: &serde_bencode::value::Value) -> (r: Result<FileInfo, ParseError>) {
    if !bval_is_dict(file_val) {
        return Err(
            ParseError::Deserialization(
                String::from_str("a `files` entry did not decode into a dictionary"),
            ),
        );
    }
    let length_val = match bval_dict_get(file_val, "length".as_bytes()) {
        Some(v) => v,
        None => {
            return Err(ParseError::MissingField(String::from_str("length")));
        },
    };
    let length_int = match bval_int(length_val) {
        Some(n) => n,
        None => {
            return Err(
                ParseError::Deserialization(
                    String::from_str("`length` did not decode into an integer"),
                ),
            );
        },
    };
    if length_int < 0 {
        return Err(ParseError::Deserialization(String::from_str("`length` was negative")));
    }
    let path_val = match bval_dict_get(file_val, "path".as_bytes()) {
        Some(v) => v,
        None => {
            return Err(ParseError::MissingField(String::from_str("path")));
        },
    };
    let part_count = match bval_list_len(path_val) {
        Some(n) => n,
        None => {
            return Err(
                ParseError::Deserialization(
                    String::from_str("`path` did not decode into a list"),
                ),
            );
        },
    };
    if part_count == 0 {
        return Err(ParseError::Deserialization(String::from_str("empty path")));
    }
    let mut parts: Vec<Vec<u8>> = Vec::new();
    let mut i: usize = 0;
    while i < part_count
        invariant
            i <= part_count,
        decreases part_count - i,
    {
        let part_val = match bval_list_get(path_val, i) {
            Some(v) => v,
            None => {
                return Err(
                    ParseError::Deserialization(
                        String::from_str("a `path` entry could not be read"),
                    ),
                );
            },
        };
        let part = match bval_bytes(part_val) {
            Some(b) => b,
            None => {
                return Err(
                    ParseError::Deserialization(
                        String::from_str("`path` did not decode into strings"),
                    ),
                );
            },
        };
        let part_check = vstd::slice::slice_to_vec(part.as_slice());
        if utf8_to_string(part_check).is_none() {
            return Err(
                ParseError::Deserialization(
                    String::from_str("a `path` entry was not valid UTF-8"),
                ),
            );
        }
        parts.push(part);
        i = i + 1;
    }
    Ok(FileInfo::new(length_int as u64, parts))
}

} // verus!
