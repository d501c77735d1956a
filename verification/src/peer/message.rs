//! Framing and deframing of the length-prefixed wire messages exchanged
//! after the handshake.
use crate::byteops::{
    bytes_range_to_vec, read_u32_be, push_u32_be, spec_u32_from_be_bytes, spec_u32_to_be_bytes,
    lemma_u32_be_bytes_round_trip,
};
use vstd::prelude::*;

verus! {

/// The nine message kinds of the wire protocol.
#[derive(Debug, Clone, Copy, PartialEq, Eq, Structural)]
pub enum PeerMessageId {
    Choke,
    Unchoke,
    Interested,
    NotInterested,
    Have,
    Bitfield,
    Request,
    Piece,
    Cancel,
}

/// The byte that identifies each message kind on the wire.
pub open spec fn spec_id_byte(id: PeerMessageId) -> u8 {
    match id {
        PeerMessageId::Choke => 0,
        PeerMessageId::Unchoke => 1,
        PeerMessageId::Interested => 2,
        PeerMessageId::NotInterested => 3,
        PeerMessageId::Have => 4,
        PeerMessageId::Bitfield => 5,
        PeerMessageId::Request => 6,
        PeerMessageId::Piece => 7,
        PeerMessageId::Cancel => 8,
    }
}

/// The message kind a byte stands for, if any: bytes 0 through 8 are
/// assigned, every other byte is a format error.
pub open spec fn spec_byte_id(b: u8) -> Option<PeerMessageId> {
    if b == 0 {
        Some(PeerMessageId::Choke)
    } else if b == 1 {
        Some(PeerMessageId::Unchoke)
    } else if b == 2 {
        Some(PeerMessageId::Interested)
    } else if b == 3 {
        Some(PeerMessageId::NotInterested)
    } else if b == 4 {
        Some(PeerMessageId::Have)
    } else if b == 5 {
        Some(PeerMessageId::Bitfield)
    } else if b == 6 {
        Some(PeerMessageId::Request)
    } else if b == 7 {
        Some(PeerMessageId::Piece)
    } else if b == 8 {
        Some(PeerMessageId::Cancel)
    } else {
        None
    }
}

impl PeerMessageId {
    /// The wire byte of this message kind.
    pub fn as_byte(&self) -> (b: u8)
        ensures
            b == spec_id_byte(*self),
    {
        match self {
            PeerMessageId::Choke => 0,
            PeerMessageId::Unchoke => 1,
            PeerMessageId::Interested => 2,
            PeerMessageId::NotInterested => 3,
            PeerMessageId::Have => 4,
            PeerMessageId::Bitfield => 5,
            PeerMessageId::Request => 6,
            PeerMessageId::Piece => 7,
            PeerMessageId::Cancel => 8,
        }
    }

    /// Maps a wire byte back to its message kind; bytes above 8 are a
    /// format error.
    pub fn from_byte(b: u8) -> (r: Result<PeerMessageId, PeerParseError>)
        ensures
            r is Ok <==> b <= 8,
            r matches Ok(id) ==> spec_byte_id(b) == Some(id) && spec_id_byte(id) == b,
            r matches Err(e) ==> e is Deserialization,
    {
        match b {
            0 => Ok(PeerMessageId::Choke),
            1 => Ok(PeerMessageId::Unchoke),
            2 => Ok(PeerMessageId::Interested),
            3 => Ok(PeerMessageId::NotInterested),
            4 => Ok(PeerMessageId::Have),
            5 => Ok(PeerMessageId::Bitfield),
            6 => Ok(PeerMessageId::Request),
            7 => Ok(PeerMessageId::Piece),
            8 => Ok(PeerMessageId::Cancel),
            _ => Err(
                PeerParseError::Deserialization(
                    String::from_str("the message id byte is not defined by the protocol"),
                ),
            ),
        }
    }
}

/// The two byte mappings of message kinds invert each other.
pub proof fn lemma_id_byte_round_trip()
    ensures
        forall|id: PeerMessageId| #[trigger] spec_byte_id(spec_id_byte(id)) == Some(id),
        forall|b: u8| b <= 8 ==> (#[trigger] spec_byte_id(b) matches Some(id) && spec_id_byte(id) == b),
{
}

/// The abstract value of a framed message.
#[verifier::ext_equal]
pub struct PeerMessageView {
    pub length: u32,
    pub id: PeerMessageId,
    pub payload: Seq<u8>,
}

impl PeerMessageView {
    /// The length prefix counts the id byte plus the payload.
    pub open spec fn wf(self) -> bool {
        self.length == self.payload.len() + 1
    }
}

/// One wire message: a length prefix covering the id byte and payload.
#[derive(Debug, Clone, PartialEq, Eq)]
pub struct PeerMessage {
    pub length: u32,
    pub id: PeerMessageId,
    pub payload: Vec<u8>,
}

impl View for PeerMessage {
    type V = PeerMessageView;

    open spec fn view(&self) -> PeerMessageView {
        PeerMessageView { length: self.length, id: self.id, payload: self.payload@ }
    }
}

/// The wire form of a message: big-endian length prefix, id byte, payload.
pub open spec fn spec_encode_message(id: PeerMessageId, payload: Seq<u8>) -> Seq<u8> {
    spec_u32_to_be_bytes((payload.len() + 1) as u32) + seq![spec_id_byte(id)] + payload
}

/// Deframing one message from the front of a buffer: the length prefix
/// must be present and at least 1, the id byte must be assigned, and the
/// remaining `length - 1` payload bytes must be available.  Returns the
/// message and the number of bytes consumed.
pub open spec fn spec_decode_message(bytes: Seq<u8>) -> Option<(PeerMessageView, int)> {
    if bytes.len() < 4 {
        None
    } else {
        let length = spec_u32_from_be_bytes(bytes.subrange(0, 4));
        if length < 1 || bytes.len() < 4 + length {
            None
        } else {
            match spec_byte_id(bytes[4]) {
                Some(id) => Some(
                    (
                        PeerMessageView { length, id, payload: bytes.subrange(5, 4 + length) },
                        4 + length,
                    ),
                ),
                None => None,
            }
        }
    }
}

/// Deframing after framing on the same stream reproduces the original id
/// and payload exactly, consuming exactly the frame, whatever bytes
/// follow it.
pub proof fn lemma_message_round_trip(id: PeerMessageId, payload: Seq<u8>, rest: Seq<u8>)
    requires
        payload.len() + 1 <= u32::MAX,
    ensures
        spec_decode_message(spec_encode_message(id, payload) + rest) matches Some((m, n))
            && m.id == id && m.payload == payload && m.length == payload.len() + 1 && n
            == payload.len() + 5,
{
    lemma_u32_be_bytes_round_trip();
    let enc = spec_encode_message(id, payload) + rest;
    let length = (payload.len() + 1) as u32;
    assert(enc.subrange(0, 4) =~= spec_u32_to_be_bytes(length));
    assert(enc[4] == spec_id_byte(id));
    assert(enc.subrange(5, 4 + length as int) =~= payload);
}

impl PeerMessage {
    /// Builds a message for the given id and payload, with the length
    /// prefix the wire form carries.
    pub fn new(id: PeerMessageId, payload: Vec<u8>) -> (r: PeerMessage)
        requires
            payload@.len() + 1 <= u32::MAX,
        ensures
            r@ == (PeerMessageView { length: (payload@.len() + 1) as u32, id, payload: payload@ }),
            r@.wf(),
    {
        let length = (payload.len() as u32) + 1;
        PeerMessage { length, id, payload }
    }

    /// Frames the message for the wire: 4-byte big-endian length prefix,
    /// then the id byte, then the payload.
    pub fn to_bytes(&self) -> (r: Vec<u8>)
        requires
            self@.wf(),
        ensures
            r@ == spec_encode_message(self@.id, self@.payload),
    {
        let mut out: Vec<u8> = Vec::new();
        push_u32_be(&mut out, self.length);
        out.push(self.id.as_byte());
        out.extend_from_slice(self.payload.as_slice());
        proof {
            assert(out@ =~= spec_encode_message(self@.id, self@.payload));
        }
        out
    }

    /// Deframes one message from the front of `bytes`, returning it with
    /// the number of bytes consumed.  Fails with a format error when the
    /// prefix or id byte is malformed or the buffer is short.
    pub fn from_bytes(bytes: &[u8]) -> (r: Result<(PeerMessage, usize), PeerParseError>)
        ensures
            r is Ok <==> spec_decode_message(bytes@) is Some,
            r matches Ok((m, n)) ==> spec_decode_message(bytes@) == Some((m@, n as int))
                && m@.wf(),
            r matches Err(e) ==> e is Deserialization,
    {
        let total = bytes.len();
        if total < 4 {
            return Err(
                PeerParseError::Deserialization(
                    String::from_str("not enough bytes for the message length"),
                ),
            );
        }
        let length = read_u32_be(bytes, 0);
        if length < 1 {
            return Err(
                PeerParseError::Deserialization(
                    String::from_str("the message length prefix must cover the id byte"),
                ),
            );
        }
        if (total as u64) < 4u64 + (length as u64) {
            return Err(
                PeerParseError::Deserialization(
                    String::from_str("not enough bytes for the message body"),
                ),
            );
        }
        let id = match PeerMessageId::from_byte(*vstd::slice::slice_index_get(bytes, 4)) {
            Ok(id) => id,
            Err(e) => {
                return Err(e);
            },
        };
        let end = 4 + (length as usize);
        let payload = bytes_range_to_vec(bytes, 5, end);
        let m = PeerMessage { length, id, payload };
        proof {
            let d = spec_decode_message(bytes@);
            assert(d matches Some((v, n)) && v =~= m@ && n == end);
        }
        Ok((m, end))
    }
}

/// Errors raised while deframing bytes into a wire message.
#[derive(Debug, Clone, PartialEq, Eq)]
pub enum PeerParseError {
    /// The bytes could not be decoded into a wire message.
    Deserialization(String),
}

} // verus!
