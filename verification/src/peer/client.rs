//! The per-piece download state machine and the coordinator that owns the
//! piece table for a whole torrent.
//!
//! A fetch drives one handshaken connection through a strict linear
//! protocol: await the peer's bitfield, declare interest, await unchoke,
//! then request the piece block by block and verify the assembled bytes
//! against the expected digest.  The functions here make every decision;
//! the caller only moves bytes between them and the transport.
use crate::byteops::{bytes_range_to_vec, read_u32_be, push_u32_be, spec_u32_from_be_bytes};
use crate::digest::{sha1_digest, sha1_of};
use crate::peer::message::{PeerMessage, PeerMessageId};
use crate::tracker::PeerAddr;
use vstd::arithmetic::div_mod::lemma_fundamental_div_mod;
use vstd::pervasive::VecAdditionalExecFns;
use vstd::prelude::*;

verus! {

/// The transfer unit: pieces are requested in blocks of at most this many
/// bytes.
pub const BLOCK_SIZE: u32 = 16384;

/// How many chunks of the given size cover `total` bytes: the ceiling of
/// `total / size`.
pub open spec fn spec_n_chunks(total: int, size: int) -> int {
    (total + size - 1) / size
}

/// The length of chunk `i` when `total` bytes are split into chunks of
/// the given size: a full chunk except for the final remainder.
pub open spec fn spec_chunk_len(total: int, size: int, i: int) -> int {
    if total - i * size < size {
        total - i * size
    } else {
        size
    }
}

/// The sum of the first `k` chunk lengths.
pub open spec fn spec_chunk_len_sum(total: int, size: int, k: int) -> int
    decreases k,
{
    if k <= 0 {
        0
    } else {
        spec_chunk_len_sum(total, size, k - 1) + spec_chunk_len(total, size, k - 1)
    }
}

/// Bounds on one chunk of the split: every chunk is non-empty, at most a
/// full chunk, lies inside the total, every chunk but the last is full,
/// and the last one ends exactly at the total.
pub proof fn lemma_chunk_bounds(total: int, size: int, i: int)
    requires
        1 <= size,
        0 <= total,
        0 <= i < spec_n_chunks(total, size),
    ensures
        1 <= spec_chunk_len(total, size, i) <= size,
        i * size + spec_chunk_len(total, size, i) <= total,
        i + 1 < spec_n_chunks(total, size) ==> spec_chunk_len(total, size, i) == size,
        i + 1 == spec_n_chunks(total, size) ==> i * size + spec_chunk_len(total, size, i) == total,
{
    let q = spec_n_chunks(total, size);
    let m = (total + size - 1) % size;
    lemma_fundamental_div_mod(total + size - 1, size);
    assert((i * size <= total - 1) && (i + 1 < q ==> total - i * size > size) && (i + 1 == q
        ==> total - i * size <= size)) by (nonlinear_arith)
        requires
            1 <= size,
            0 <= total,
            0 <= i < q,
            total + size - 1 == size * q + m,
            0 <= m < size,
    ;
}

/// The chunk lengths of a split cover the total exactly: the first `k`
/// of them sum to `k` full chunks, capped at the total.
pub proof fn lemma_chunk_len_sum_prefix(total: int, size: int, k: int)
    requires
        1 <= size,
        0 <= total,
        0 <= k <= spec_n_chunks(total, size),
    ensures
        spec_chunk_len_sum(total, size, k) == if k * size < total {
            k * size
        } else {
            total
        },
    decreases k,
{
    if k == 0 {
        assert(k * size == 0) by (nonlinear_arith)
            requires
                k == 0,
        ;
    } else {
        lemma_chunk_len_sum_prefix(total, size, k - 1);
        lemma_chunk_bounds(total, size, k - 1);
        let q = spec_n_chunks(total, size);
        let prev = spec_chunk_len_sum(total, size, k - 1);
        let len_last = spec_chunk_len(total, size, k - 1);
        assert(prev + len_last == (if k * size < total {
            k * size
        } else {
            total
        })) by (nonlinear_arith)
            requires
                1 <= size,
                0 <= total,
                1 <= k <= q,
                prev == (if (k - 1) * size < total {
                    (k - 1) * size
                } else {
                    total
                }),
                len_last == (if total - (k - 1) * size < size {
                    total - (k - 1) * size
                } else {
                    size
                }),
                (k - 1) * size + len_last <= total,
                1 <= len_last <= size,
        ;
    }
}

/// The sum of all chunk lengths equals the total.
pub proof fn lemma_chunk_lens_cover(total: int, size: int)
    requires
        1 <= size,
        0 <= total,
    ensures
        spec_chunk_len_sum(total, size, spec_n_chunks(total, size)) == total,
{
    let q = spec_n_chunks(total, size);
    let m = (total + size - 1) % size;
    lemma_fundamental_div_mod(total + size - 1, size);
    assert(0 <= q && !(q * size < total)) by (nonlinear_arith)
        requires
            1 <= size,
            0 <= total,
            total + size - 1 == size * q + m,
            0 <= m < size,
    ;
    lemma_chunk_len_sum_prefix(total, size, q);
}

/// How many blocks a piece of the given length needs.
pub open spec fn spec_n_blocks(len: int) -> int {
    spec_n_chunks(len, 16384)
}

/// Where block `i` starts within its piece.
pub open spec fn spec_block_begin(i: int) -> int {
    i * 16384
}

/// The length of block `i` of a piece of the given length.
pub open spec fn spec_block_len(len: int, i: int) -> int {
    spec_chunk_len(len, 16384, i)
}

/// The payload of the request for block `i`: piece index, block offset,
/// and block length, each big-endian.
pub open spec fn spec_request_payload(index: u32, length: u32, i: int) -> Seq<u8> {
    crate::byteops::spec_u32_to_be_bytes(index) + crate::byteops::spec_u32_to_be_bytes(
        spec_block_begin(i) as u32,
    ) + crate::byteops::spec_u32_to_be_bytes(spec_block_len(length as int, i) as u32)
}

/// Builds the request payload for block `i` of the piece.
pub fn request_payload(index: u32, length: u32, i: u32) -> (r: Vec<u8>)
    requires
        1 <= length,
        (i as int) < spec_n_blocks(length as int),
    ensures
        r@ == spec_request_payload(index, length, i as int),
        r@.len() == 12,
{
    proof {
        lemma_chunk_bounds(length as int, 16384, i as int);
    }
    let begin = i * 16384;
    let block_len = if length - begin < 16384 {
        length - begin
    } else {
        16384
    };
    let mut out: Vec<u8> = Vec::new();
    push_u32_be(&mut out, index);
    push_u32_be(&mut out, begin);
    push_u32_be(&mut out, block_len);
    proof {
        assert(out@ =~= spec_request_payload(index, length, i as int));
    }
    out
}

/// Where the fetch of one piece stands.
#[derive(Debug, Clone, Copy, PartialEq, Eq, Structural)]
pub enum FetchPhase {
    /// The peer's bitfield has not arrived yet.
    AwaitBitfield,
    /// Interest is declared; the unchoke has not arrived yet.
    AwaitUnchoke,
    /// A block request is outstanding.
    AwaitPiece,
    /// Every block has arrived; the buffer awaits verification.
    Received,
    /// The piece verified against its expected digest.
    Complete,
    /// A protocol violation or digest mismatch aborted the fetch.
    Failed,
}

/// What the caller must do next after feeding a message to the fetch.
#[derive(Debug, Clone, PartialEq, Eq)]
pub enum FetchAction {
    /// Write this message to the peer.
    Send(PeerMessage),
    /// Every block has arrived: verify the piece with `finish`.
    Verify,
}

/// The abstract state of a piece fetch.
#[verifier::ext_equal]
pub struct PieceFetcherView {
    pub piece_index: u32,
    pub length: u32,
    pub expected_hash: Seq<u8>,
    pub phase: FetchPhase,
    pub next_block: u32,
    pub buf: Seq<u8>,
}

impl PieceFetcherView {
    /// The digest has its width, the piece is non-empty, while a request
    /// is outstanding it is for a real block, and a completed fetch holds
    /// only bytes that hash to the expected digest.
    pub open spec fn inv(self) -> bool {
        &&& self.expected_hash.len() == 20
        &&& 1 <= self.length
        &&& (self.phase is AwaitPiece ==> (self.next_block as int) < spec_n_blocks(
            self.length as int,
        ))
        &&& (self.phase is Complete ==> sha1_of(self.buf) == self.expected_hash)
    }
}

/// The state machine that retrieves and verifies exactly one piece over
/// an already-handshaken connection.
#[derive(Debug)]
pub struct PieceFetcher {
    piece_index: u32,
    length: u32,
    expected_hash: Vec<u8>,
    phase: FetchPhase,
    next_block: u32,
    buf: Vec<u8>,
}

impl View for PieceFetcher {
    type V = PieceFetcherView;

    closed spec fn view(&self) -> PieceFetcherView {
        PieceFetcherView {
            piece_index: self.piece_index,
            length: self.length,
            expected_hash: self.expected_hash@,
            phase: self.phase,
            next_block: self.next_block,
            buf: self.buf@,
        }
    }
}

impl PieceFetcher {
    /// Starts a fetch for the piece with the given index, expected length,
    /// and expected digest.
    pub fn new(piece_index: u32, length: u32, expected_hash: Vec<u8>) -> (r: PieceFetcher)
        requires
            1 <= length,
            expected_hash@.len() == 20,
        ensures
            r@ == (PieceFetcherView {
                piece_index,
                length,
                expected_hash: expected_hash@,
                phase: FetchPhase::AwaitBitfield,
                next_block: 0,
                buf: Seq::<u8>::empty(),
            }),
            r@.inv(),
    {
        let r = PieceFetcher {
            piece_index,
            length,
            expected_hash,
            phase: FetchPhase::AwaitBitfield,
            next_block: 0,
            buf: Vec::new(),
        };
        proof {
            assert(r@ =~= (PieceFetcherView {
                piece_index,
                length,
                expected_hash: r.expected_hash@,
                phase: FetchPhase::AwaitBitfield,
                next_block: 0,
                buf: Seq::<u8>::empty(),
            }));
        }
        r
    }

    pub fn phase(&self) -> (r: FetchPhase)
        ensures
            r == self@.phase,
    {
        self.phase
    }

    pub fn piece_index(&self) -> (r: u32)
        ensures
            r == self@.piece_index,
    {
        self.piece_index
    }

    /// Feeds one received message to the state machine and reports what to
    /// do next.  Exactly the expected message advances the fetch: the
    /// bitfield, then the unchoke, then each requested block in order with
    /// a matching index and offset.  Anything else is a protocol error
    /// that fails the fetch, before any further message would be sent.
    pub fn on_message(&mut self, msg: &PeerMessage) -> (r: Result<FetchAction, DownloadError>)
        requires
            old(self)@.inv(),
            msg@.wf(),
            old(self)@.phase is AwaitBitfield || old(self)@.phase is AwaitUnchoke
                || old(self)@.phase is AwaitPiece,
        ensures
            final(self)@.inv(),
            final(self)@.piece_index == old(self)@.piece_index,
            final(self)@.length == old(self)@.length,
            final(self)@.expected_hash == old(self)@.expected_hash,
            r is Err <==> final(self)@.phase is Failed,
            r matches Err(e) ==> e == (DownloadError::Protocol {
                piece_num: old(self)@.piece_index as usize,
            }) && final(self)@.buf == old(self)@.buf,
            old(self)@.phase is AwaitBitfield ==> (if msg@.id is Bitfield {
                &&& final(self)@.phase is AwaitUnchoke
                &&& final(self)@.buf == old(self)@.buf
                &&& (r matches Ok(a) && a matches FetchAction::Send(m) && m@.wf() && m@.id
                    is Interested && m@.payload.len() == 0)
            } else {
                r is Err
            }),
            old(self)@.phase is AwaitUnchoke ==> (if msg@.id is Unchoke {
                &&& final(self)@.phase is AwaitPiece
                &&& final(self)@.next_block == 0
                &&& final(self)@.buf == old(self)@.buf
                &&& (r matches Ok(a) && a matches FetchAction::Send(m) && m@.wf() && m@.id
                    is Request && m@.payload == spec_request_payload(
                    old(self)@.piece_index,
                    old(self)@.length,
                    0,
                ))
            } else {
                r is Err
            }),
            old(self)@.phase is AwaitPiece ==> (if msg@.id is Piece && msg@.payload.len() >= 8
                && spec_u32_from_be_bytes(msg@.payload.subrange(0, 4)) == old(self)@.piece_index
                && spec_u32_from_be_bytes(msg@.payload.subrange(4, 8)) == spec_block_begin(
                old(self)@.next_block as int,
            ) as u32 {
                &&& final(self)@.buf == old(self)@.buf + msg@.payload.skip(8)
                &&& (if old(self)@.next_block + 1 < spec_n_blocks(old(self)@.length as int) {
                    &&& final(self)@.phase is AwaitPiece
                    &&& final(self)@.next_block == old(self)@.next_block + 1
                    &&& (r matches Ok(a) && a matches FetchAction::Send(m) && m@.wf() && m@.id
                        is Request && m@.payload == spec_request_payload(
                        old(self)@.piece_index,
                        old(self)@.length,
                        old(self)@.next_block + 1,
                    ))
                } else {
                    &&& final(self)@.phase is Received
                    &&& (r matches Ok(a) && a is Verify)
                })
            } else {
                r is Err
            }),
    {
        match self.phase {
            FetchPhase::AwaitBitfield => {
                if msg.id == PeerMessageId::Bitfield {
                    self.phase = FetchPhase::AwaitUnchoke;
                    Ok(FetchAction::Send(PeerMessage::new(PeerMessageId::Interested, Vec::new())))
                } else {
                    self.phase = FetchPhase::Failed;
                    Err(DownloadError::Protocol { piece_num: self.piece_index as usize })
                }
            },
            FetchPhase::AwaitUnchoke => {
                if msg.id == PeerMessageId::Unchoke {
                    proof {
                        lemma_chunk_lens_cover(self.length as int, 16384);
                        assert(spec_n_blocks(self.length as int) >= 1) by {
                            if spec_n_blocks(self.length as int) <= 0 {
                                assert(spec_chunk_len_sum(
                                    self.length as int,
                                    16384,
                                    spec_n_blocks(self.length as int),
                                ) == 0);
                            }
                        }
                    }
                    self.phase = FetchPhase::AwaitPiece;
                    self.next_block = 0;
                    let payload = request_payload(self.piece_index, self.length, 0);
                    Ok(FetchAction::Send(PeerMessage::new(PeerMessageId::Request, payload)))
                } else {
                    self.phase = FetchPhase::Failed;
                    Err(DownloadError::Protocol { piece_num: self.piece_index as usize })
                }
            },
            FetchPhase::AwaitPiece => {
                if !(msg.id == PeerMessageId::Piece) || msg.payload.len() < 8 {
                    self.phase = FetchPhase::Failed;
                    return Err(DownloadError::Protocol { piece_num: self.piece_index as usize });
                }
                proof {
                    lemma_chunk_bounds(self.length as int, 16384, self.next_block as int);
                }
                let actual_index = read_u32_be(msg.payload.as_slice(), 0);
                let actual_begin = read_u32_be(msg.payload.as_slice(), 4);
                let expected_begin = self.next_block * 16384;
                if actual_index != self.piece_index || actual_begin != expected_begin {
                    self.phase = FetchPhase::Failed;
                    return Err(DownloadError::Protocol { piece_num: self.piece_index as usize });
                }
                let payload_len = msg.payload.len();
                let mut block = bytes_range_to_vec(msg.payload.as_slice(), 8, payload_len);
                self.buf.append(&mut block);
                proof {
                    assert(self.buf@ =~= old(self)@.buf + msg@.payload.skip(8));
                }
                let blocks = ((self.length as u64) + 16383) / 16384;
                if (self.next_block as u64) + 1 < blocks {
                    self.next_block = self.next_block + 1;
                    let payload = request_payload(self.piece_index, self.length, self.next_block);
                    Ok(FetchAction::Send(PeerMessage::new(PeerMessageId::Request, payload)))
                } else {
                    self.phase = FetchPhase::Received;
                    Ok(FetchAction::Verify)
                }
            },
            FetchPhase::Received | FetchPhase::Complete | FetchPhase::Failed => {
                vstd::pervasive::unreached()
            },
        }
    }

    /// Verifies the assembled piece: its SHA-1 digest must equal the
    /// expected digest.  On success the piece bytes are returned and the
    /// fetch completes; on mismatch the fetch fails with a verification
    /// error and the piece stays un-downloaded.
    pub fn finish(&mut self) -> (r: Result<Vec<u8>, DownloadError>)
        requires
            old(self)@.inv(),
            old(self)@.phase is Received,
        ensures
            final(self)@.inv(),
            final(self)@.piece_index == old(self)@.piece_index,
            final(self)@.length == old(self)@.length,
            final(self)@.expected_hash == old(self)@.expected_hash,
            final(self)@.buf == old(self)@.buf,
            sha1_of(old(self)@.buf) == old(self)@.expected_hash ==> (r matches Ok(b)
                && b@ == old(self)@.buf && final(self)@.phase is Complete),
            sha1_of(old(self)@.buf) != old(self)@.expected_hash ==> ((r matches Err(e)
                && e == (DownloadError::Verification { piece_num: old(self)@.piece_index as usize }))
                && final(self)@.phase is Failed),
    {
        let digest = sha1_digest(self.buf.as_slice());
        let hashes_eq = digest == self.expected_hash;
        proof {
            if hashes_eq {
                assert(digest@ =~= self.expected_hash@);
            }
        }
        if hashes_eq {
            self.phase = FetchPhase::Complete;
            Ok(vstd::slice::slice_to_vec(self.buf.as_slice()))
        } else {
            self.phase = FetchPhase::Failed;
            Err(DownloadError::Verification { piece_num: self.piece_index as usize })
        }
    }
}

/// Checks that a received message carries the expected id, handing it
/// back unchanged when it does.
pub fn verify_incoming_message(message: PeerMessage, expected: PeerMessageId) -> (r: Result<
    PeerMessage,
    PeerClientError,
>)
    ensures
        message@.id == expected ==> (r matches Ok(m) && m@ == message@),
        message@.id != expected ==> (r matches Err(e) && e is Connection),
{
    if message.id == expected {
        Ok(message)
    } else {
        Err(
            PeerClientError::Connection(
                String::from_str("did not get the expected message from the peer"),
            ),
        )
    }
}

/// The abstract state of a download coordinator.
#[verifier::ext_equal]
pub struct DownloaderView {
    pub pieces_downloaded: Seq<(bool, u64)>,
    pub piece_hashes: Seq<Seq<u8>>,
    pub info_hash: Seq<u8>,
    pub peer_id: Seq<u8>,
    pub peers: Seq<PeerAddr>,
    pub piece_length: u64,
    pub total_length: u64,
}

impl DownloaderView {
    /// The piece table matches the remainder rule: one entry per chunk of
    /// the total length, each holding its expected length, with one
    /// 20-byte digest per piece.
    pub open spec fn inv(self) -> bool {
        &&& self.info_hash.len() == 20
        &&& self.peer_id.len() == 20
        &&& 1 <= self.piece_length
        &&& self.pieces_downloaded.len() == spec_n_chunks(
            self.total_length as int,
            self.piece_length as int,
        )
        &&& self.piece_hashes.len() == self.pieces_downloaded.len()
        &&& (forall|i: int|
            0 <= i < self.piece_hashes.len() ==> self.piece_hashes[i].len() == 20)
        &&& (forall|i: int|
            0 <= i < self.pieces_downloaded.len() ==> self.pieces_downloaded[i].1
                == spec_chunk_len(self.total_length as int, self.piece_length as int, i))
    }
}

/// Owns the per-torrent piece table and sequences whole-file retrieval,
/// one piece and one connection at a time.
#[derive(Debug)]
pub struct Downloader {
    pieces_downloaded: Vec<(bool, u64)>,
    piece_hashes: Vec<Vec<u8>>,
    info_hash: Vec<u8>,
    peer_id: Vec<u8>,
    peers: Vec<PeerAddr>,
    piece_length: u64,
    total_length: u64,
}

impl View for Downloader {
    type V = DownloaderView;

    closed spec fn view(&self) -> DownloaderView {
        DownloaderView {
            pieces_downloaded: self.pieces_downloaded@,
            piece_hashes: self.piece_hashes.deep_view(),
            info_hash: self.info_hash@,
            peer_id: self.peer_id@,
            peers: self.peers@,
            piece_length: self.piece_length,
            total_length: self.total_length,
        }
    }
}

impl Downloader {
    /// Builds the coordinator from descriptor data and the peer list: one
    /// table entry per piece, none downloaded, every entry's expected
    /// length given by the remainder rule.
    pub fn new(
        info_hash: Vec<u8>,
        peer_id: Vec<u8>,
        piece_length: u64,
        total_length: u64,
        piece_hashes: Vec<Vec<u8>>,
        peers: Vec<PeerAddr>,
    ) -> (r: Downloader)
        requires
            info_hash@.len() == 20,
            peer_id@.len() == 20,
            1 <= piece_length,
            piece_hashes.deep_view().len() == spec_n_chunks(
                total_length as int,
                piece_length as int,
            ),
            forall|i: int|
                0 <= i < piece_hashes.deep_view().len() ==> piece_hashes.deep_view()[i].len()
                    == 20,
        ensures
            r@.inv(),
            r@.info_hash == info_hash@,
            r@.peer_id == peer_id@,
            r@.peers == peers@,
            r@.piece_length == piece_length,
            r@.total_length == total_length,
            r@.piece_hashes == piece_hashes.deep_view(),
            r@.pieces_downloaded.len() == piece_hashes.deep_view().len(),
            forall|i: int|
                0 <= i < r@.pieces_downloaded.len() ==> r@.pieces_downloaded[i] == (
                false,
                spec_chunk_len(total_length as int, piece_length as int, i) as u64,
            ),
    {
        let n = piece_hashes.len();
        proof {
            assert(piece_hashes.deep_view().len() == piece_hashes@.len());
        }
        let mut pieces_downloaded: Vec<(bool, u64)> = Vec::new();
        let mut i: usize = 0;
        while i < n
            invariant
                i <= n,
                n == piece_hashes@.len(),
                n == spec_n_chunks(total_length as int, piece_length as int),
                1 <= piece_length,
                pieces_downloaded@.len() == i,
                forall|j: int|
                    0 <= j < i ==> pieces_downloaded@[j] == (
                    false,
                    spec_chunk_len(total_length as int, piece_length as int, j) as u64,
                ),
            decreases n - i,
        {
            proof {
                lemma_chunk_bounds(total_length as int, piece_length as int, i as int);
                vstd::arithmetic::mul::lemma_mul_is_commutative(
                    piece_length as int,
                    i as int,
                );
            }
            let consumed = piece_length * (i as u64);
            let remaining = total_length - consumed;
            let len_i = if remaining < piece_length {
                remaining
            } else {
                piece_length
            };
            pieces_downloaded.push((false, len_i));
            i = i + 1;
        }
        proof {
            assert forall|j: int| 0 <= j < pieces_downloaded@.len() implies pieces_downloaded@[j]
                == (false, spec_chunk_len(total_length as int, piece_length as int, j) as u64)
                && pieces_downloaded@[j].1 == spec_chunk_len(
                total_length as int,
                piece_length as int,
                j,
            ) by {
                lemma_chunk_bounds(total_length as int, piece_length as int, j);
            }
        }
        Downloader {
            pieces_downloaded,
            piece_hashes,
            info_hash,
            peer_id,
            peers,
            piece_length,
            total_length,
        }
    }

    pub fn n_pieces(&self) -> (r: usize)
        ensures
            r == self@.pieces_downloaded.len(),
    {
        self.pieces_downloaded.len()
    }

    /// Whether the piece with the given index has been downloaded and
    /// verified.
    pub fn piece_done(&self, piece_num: usize) -> (r: bool)
        requires
            piece_num < self@.pieces_downloaded.len(),
        ensures
            r == self@.pieces_downloaded[piece_num as int].0,
    {
        self.pieces_downloaded[piece_num].0
    }

    /// The expected length of the piece with the given index.
    pub fn piece_expected_len(&self, piece_num: usize) -> (r: u64)
        requires
            piece_num < self@.pieces_downloaded.len(),
        ensures
            r == self@.pieces_downloaded[piece_num as int].1,
    {
        self.pieces_downloaded[piece_num].1
    }

    pub fn info_hash(&self) -> (r: &Vec<u8>)
        ensures
            r@ == self@.info_hash,
    {
        &self.info_hash
    }

    pub fn peer_id(&self) -> (r: &Vec<u8>)
        ensures
            r@ == self@.peer_id,
    {
        &self.peer_id
    }

    /// The peer every piece is fetched from: the first candidate, the
    /// only selection policy of this design.
    pub fn first_peer(&self) -> (r: Option<PeerAddr>)
        ensures
            r is Some <==> self@.peers.len() > 0,
            r matches Some(p) ==> p == self@.peers[0],
    {
        if self.peers.len() > 0 {
            Some(self.peers[0])
        } else {
            None
        }
    }

    /// Gates a piece fetch and builds its state machine.  The request is
    /// refused when the index is out of range, the piece is already
    /// downloaded, the piece is too large for the wire format's offsets,
    /// or no peer is available.
    pub fn start_piece(&self, piece_num: usize) -> (r: Result<PieceFetcher, DownloadError>)
        requires
            self@.inv(),
        ensures
            r is Ok <==> ((piece_num as int) < self@.pieces_downloaded.len()
                && self@.pieces_downloaded[piece_num as int].0 == false && piece_num <= u32::MAX
                && self@.pieces_downloaded[piece_num as int].1 <= u32::MAX
                && self@.peers.len() > 0),
            r matches Ok(f) ==> f@.inv() && f@ == (PieceFetcherView {
                piece_index: piece_num as u32,
                length: self@.pieces_downloaded[piece_num as int].1 as u32,
                expected_hash: self@.piece_hashes[piece_num as int],
                phase: FetchPhase::AwaitBitfield,
                next_block: 0,
                buf: Seq::<u8>::empty(),
            }),
            r matches Err(e) ==> e == (if (piece_num as int) < self@.pieces_downloaded.len()
                && self@.pieces_downloaded[piece_num as int].0 == false && piece_num <= u32::MAX
                && self@.pieces_downloaded[piece_num as int].1 <= u32::MAX {
                DownloadError::Connection { piece_num }
            } else {
                DownloadError::InvalidPiece { piece_num }
            }),
    {
        if piece_num >= self.pieces_downloaded.len() {
            return Err(DownloadError::InvalidPiece { piece_num });
        }
        let (done, expected_len) = self.pieces_downloaded[piece_num];
        if done {
            return Err(DownloadError::InvalidPiece { piece_num });
        }
        if piece_num > (u32::MAX as usize) || expected_len > (u32::MAX as u64) {
            return Err(DownloadError::InvalidPiece { piece_num });
        }
        if self.peers.len() == 0 {
            return Err(DownloadError::Connection { piece_num });
        }
        proof {
            lemma_chunk_bounds(
                self@.total_length as int,
                self@.piece_length as int,
                piece_num as int,
            );
        }
        let hash = vstd::slice::slice_to_vec(self.piece_hashes[piece_num].as_slice());
        Ok(PieceFetcher::new(piece_num as u32, expected_len as u32, hash))
    }

    /// Marks a piece downloaded.  Only a completed fetch — one whose
    /// assembled bytes verified against this piece's digest — is
    /// accepted, so the flag is set strictly after verification.
    pub fn record_complete(&mut self, fetcher: &PieceFetcher)
        requires
            old(self)@.inv(),
            fetcher@.inv(),
            fetcher@.phase is Complete,
            (fetcher@.piece_index as int) < old(self)@.pieces_downloaded.len(),
            fetcher@.expected_hash == old(self)@.piece_hashes[fetcher@.piece_index as int],
        ensures
            final(self)@.inv(),
            final(self)@.pieces_downloaded == old(self)@.pieces_downloaded.update(
                fetcher@.piece_index as int,
                (true, old(self)@.pieces_downloaded[fetcher@.piece_index as int].1),
            ),
            final(self)@.piece_hashes == old(self)@.piece_hashes,
            final(self)@.info_hash == old(self)@.info_hash,
            final(self)@.peer_id == old(self)@.peer_id,
            final(self)@.peers == old(self)@.peers,
            final(self)@.piece_length == old(self)@.piece_length,
            final(self)@.total_length == old(self)@.total_length,
    {
        let i = fetcher.piece_index() as usize;
        let expected_len = self.pieces_downloaded[i].1;
        self.pieces_downloaded.set(i, (true, expected_len));
    }
}

/// The verification gate: a fetch reaches completion only with a buffer
/// whose SHA-1 digest equals the expected digest, so a piece is marked
/// downloaded strictly after successful verification.
pub proof fn lemma_complete_fetch_verified(f: PieceFetcherView)
    requires
        f.inv(),
        f.phase is Complete,
    ensures
        sha1_of(f.buf) == f.expected_hash,
{
}

/// The piece-size invariant of a coordinator: the expected lengths of
/// its pieces sum to the torrent's total length.
pub proof fn lemma_piece_lengths_sum(v: DownloaderView)
    requires
        v.inv(),
    ensures
        spec_chunk_len_sum(
            v.total_length as int,
            v.piece_length as int,
            v.pieces_downloaded.len() as int,
        ) == v.total_length,
{
    lemma_chunk_lens_cover(v.total_length as int, v.piece_length as int);
}

/// Errors raised while joining the peer-to-peer network.
#[derive(Debug, Clone, PartialEq, Eq)]
pub enum PeerClientError {
    /// The client could not reach the network.
    Connection(String),
}

/// Errors raised while downloading a piece, each annotated with the piece
/// it concerns.
#[derive(Debug, Clone, Copy, PartialEq, Eq, Structural)]
pub enum DownloadError {
    /// The piece number is out of range, already downloaded, or too
    /// large for the wire format.
    InvalidPiece { piece_num: usize },
    /// The transport failed, or no peer is available to serve the piece.
    Connection { piece_num: usize },
    /// The peer sent a message out of order or with a malformed header.
    Protocol { piece_num: usize },
    /// The assembled bytes did not hash to the expected digest.
    Verification { piece_num: usize },
}

} // verus!
