//! The 68-byte connection preamble: build, serialize, parse, and validate
//! the reply received from a peer.
use crate::byteops::bytes_range_to_vec;
use crate::ParseError;
use vstd::prelude::*;

verus! {

pub const LENGTH_BYTE_SIZE: usize = 1;

pub const HANDSHAKE_LENGTH_SIZE: usize = 19;

pub const RESERVED_SIZE: usize = 8;

pub const HANDSHAKE_SIZE: usize = 68;

/// The 19 bytes of the literal protocol name "BitTorrent protocol".
pub open spec fn spec_protocol() -> Seq<u8> {
    seq![
        66u8,
        105u8,
        116u8,
        84u8,
        111u8,
        114u8,
        114u8,
        101u8,
        110u8,
        116u8,
        32u8,
        112u8,
        114u8,
        111u8,
        116u8,
        111u8,
        99u8,
        111u8,
        108u8,
    ]
}

/// The eight reserved bytes, all zero.
pub open spec fn spec_reserved() -> Seq<u8> {
    seq![0u8, 0u8, 0u8, 0u8, 0u8, 0u8, 0u8, 0u8]
}

/// The protocol name as a byte vector.
pub fn protocol_bytes() -> (v: Vec<u8>)
    ensures
        v@ == spec_protocol(),
{
    let v: Vec<u8> = vec![66, 105, 116, 84, 111, 114, 114, 101, 110, 116, 32, 112, 114, 111, 116, 111, 99, 111, 108];
    proof {
        assert(v@ =~= spec_protocol());
    }
    v
}

/// The abstract value of a handshake: each field as a byte sequence.
#[verifier::ext_equal]
pub struct HandshakeView {
    pub length: u8,
    pub protocol: Seq<u8>,
    pub reserved: Seq<u8>,
    pub infohash: Seq<u8>,
    pub peer_id: Seq<u8>,
}

impl HandshakeView {
    /// Every field has its wire width.
    pub open spec fn wf(self) -> bool {
        &&& self.protocol.len() == 19
        &&& self.reserved.len() == 8
        &&& self.infohash.len() == 20
        &&& self.peer_id.len() == 20
    }

    /// A handshake that parsing would accept: correct widths, length byte
    /// 19, and the literal protocol name.
    pub open spec fn valid(self) -> bool {
        &&& self.wf()
        &&& self.length == 19
        &&& self.protocol == spec_protocol()
    }

    /// The 68-byte wire form: length, protocol name, reserved bytes,
    /// info-hash, peer id.
    pub open spec fn to_bytes(self) -> Seq<u8> {
        seq![self.length] + self.protocol + self.reserved + self.infohash + self.peer_id
    }

    /// The fields compared when validating a handshake exchange: the peer
    /// must agree on the protocol fields and the info-hash; reserved bytes
    /// and peer id may differ.
    pub open spec fn agrees(self, other: HandshakeView) -> bool {
        &&& self.length == other.length
        &&& self.protocol == other.protocol
        &&& self.infohash == other.infohash
    }
}

/// Parsing the wire form: defined exactly when at least 68 bytes are
/// available, the length byte is 19, and the protocol name matches.
pub open spec fn spec_parse_handshake(bytes: Seq<u8>) -> Option<HandshakeView> {
    if bytes.len() >= 68 && bytes[0] == 19 && bytes.subrange(1, 20) == spec_protocol() {
        Some(
            HandshakeView {
                length: bytes[0],
                protocol: bytes.subrange(1, 20),
                reserved: bytes.subrange(20, 28),
                infohash: bytes.subrange(28, 48),
                peer_id: bytes.subrange(48, 68),
            },
        )
    } else {
        None
    }
}

/// Serializing a valid handshake and parsing the result gives back the
/// same handshake.
pub proof fn lemma_handshake_round_trip(h: HandshakeView)
    requires
        h.valid(),
    ensures
        spec_parse_handshake(h.to_bytes()) == Some(h),
{
    let b = h.to_bytes();
    assert(b.len() == 68);
    assert(b[0] == h.length);
    assert(b.subrange(1, 20) =~= h.protocol);
    assert(b.subrange(20, 28) =~= h.reserved);
    assert(b.subrange(28, 48) =~= h.infohash);
    assert(b.subrange(48, 68) =~= h.peer_id);
    assert(spec_parse_handshake(b) matches Some(p) && p =~= h);
}

/// The connection preamble exchanged when a peer connection opens.
#[derive(Debug, Clone)]
pub struct Handshake {
    length: u8,
    protocol: Vec<u8>,
    reserved: Vec<u8>,
    infohash: Vec<u8>,
    peer_id: Vec<u8>,
}

impl View for Handshake {
    type V = HandshakeView;

    closed spec fn view(&self) -> HandshakeView {
        HandshakeView {
            length: self.length,
            protocol: self.protocol@,
            reserved: self.reserved@,
            infohash: self.infohash@,
            peer_id: self.peer_id@,
        }
    }
}

impl PartialEq for Handshake {
    /// Handshakes are compared on the protocol fields and info-hash only.
    fn eq(&self, other: &Self) -> (r: bool) {
        let lengths_eq = self.length == other.length;
        let protocols_eq = self.protocol == other.protocol;
        let infohashes_eq = self.infohash == other.infohash;
        proof {
            if protocols_eq {
                assert(self.protocol@ =~= other.protocol@);
            }
            if infohashes_eq {
                assert(self.infohash@ =~= other.infohash@);
            }
        }
        lengths_eq && protocols_eq && infohashes_eq
    }
}

impl Eq for Handshake {}

impl vstd::std_specs::cmp::PartialEqSpecImpl for Handshake {
    open spec fn obeys_eq_spec() -> bool {
        true
    }

    open spec fn eq_spec(&self, other: &Handshake) -> bool {
        self@.agrees(other@)
    }
}

impl Handshake {
    pub fn length(&self) -> (r: &u8)
        ensures
            *r == self@.length,
    {
        &self.length
    }

    pub fn protocol(&self) -> (r: &Vec<u8>)
        ensures
            r@ == self@.protocol,
    {
        &self.protocol
    }

    pub fn reserved(&self) -> (r: &Vec<u8>)
        ensures
            r@ == self@.reserved,
    {
        &self.reserved
    }

    pub fn infohash(&self) -> (r: &Vec<u8>)
        ensures
            r@ == self@.infohash,
    {
        &self.infohash
    }

    pub fn peer_id(&self) -> (r: &Vec<u8>)
        ensures
            r@ == self@.peer_id,
    {
        &self.peer_id
    }

    /// Builds the handshake this client sends: length 19, the literal
    /// protocol name, zero reserved bytes, and the given identifiers.
    pub fn new(infohash: &Vec<u8>, peer_id: &Vec<u8>) -> (r: Handshake)
        requires
            infohash@.len() == 20,
            peer_id@.len() == 20,
        ensures
            r@.valid(),
            r@.reserved == spec_reserved(),
            r@.infohash == infohash@,
            r@.peer_id == peer_id@,
    {
        let reserved: Vec<u8> = vec![0u8; 8];
        proof {
            assert(reserved@ =~= spec_reserved());
        }
        Handshake {
            length: 19,
            protocol: protocol_bytes(),
            reserved,
            infohash: vstd::slice::slice_to_vec(infohash.as_slice()),
            peer_id: vstd::slice::slice_to_vec(peer_id.as_slice()),
        }
    }

    /// Parses a handshake from raw bytes, failing with a format error when
    /// fewer than 68 bytes are available, the length byte is not 19, or
    /// the protocol name does not match the literal.
    pub fn from_bytes(bytes: &[u8]) -> (r: Result<Handshake, ParseError>)
        ensures
            r is Ok <==> spec_parse_handshake(bytes@) is Some,
            r matches Ok(h) ==> spec_parse_handshake(bytes@) == Some(h@) && h@.wf(),
            r matches Err(e) ==> e is Deserialization,
    {
        let n = bytes.len();
        if n < 68 {
            return Err(
                ParseError::Deserialization(
                    String::from_str("fewer bytes than a full handshake"),
                ),
            );
        }
        let length = *vstd::slice::slice_index_get(bytes, 0);
        if length != 19 {
            return Err(
                ParseError::Deserialization(
                    String::from_str("`length` parsed did not equal the required handshake length"),
                ),
            );
        }
        let protocol = bytes_range_to_vec(bytes, 1, 20);
        let expected = protocol_bytes();
        let protocols_eq = protocol == expected;
        proof {
            if protocols_eq {
                assert(protocol@ =~= expected@);
            }
        }
        if !protocols_eq {
            return Err(
                ParseError::Deserialization(
                    String::from_str("protocol parsed did not equal the protocol literal"),
                ),
            );
        }
        let reserved = bytes_range_to_vec(bytes, 20, 28);
        let infohash = bytes_range_to_vec(bytes, 28, 48);
        let peer_id = bytes_range_to_vec(bytes, 48, 68);
        let h = Handshake { length, protocol, reserved, infohash, peer_id };
        proof {
            let p = spec_parse_handshake(bytes@);
            assert(p matches Some(v) && v =~= h@);
        }
        Ok(h)
    }

    /// Serializes the handshake into its 68-byte wire form.
    pub fn as_bytes(&self) -> (r: Vec<u8>)
        requires
            self@.wf(),
        ensures
            r@ == self@.to_bytes(),
            r@.len() == 68,
    {
        let mut out: Vec<u8> = Vec::new();
        out.push(self.length);
        out.extend_from_slice(self.protocol.as_slice());
        out.extend_from_slice(self.reserved.as_slice());
        out.extend_from_slice(self.infohash.as_slice());
        out.extend_from_slice(self.peer_id.as_slice());
        proof {
            assert(out@ =~= self@.to_bytes());
        }
        out
    }

    /// Checks the 68-byte reply read from the peer: it must parse and
    /// agree with this handshake on the protocol fields and info-hash.
    /// Returns the peer's parsed handshake, whose peer id identifies the
    /// remote side.
    pub fn validate_reply(&self, reply: &[u8]) -> (r: Result<Handshake, HandshakeError>)
        ensures
            r is Ok <==> (spec_parse_handshake(reply@) matches Some(p) && self@.agrees(p)),
            r matches Ok(h) ==> spec_parse_handshake(reply@) == Some(h@) && h@.wf(),
            r matches Err(e) ==> e is Connection,
    {
        let parsed = match Handshake::from_bytes(reply) {
            Ok(h) => h,
            Err(_) => {
                return Err(
                    HandshakeError::Connection(
                        String::from_str("the peer's handshake could not be parsed"),
                    ),
                );
            },
        };
        if *self == parsed {
            Ok(parsed)
        } else {
            Err(
                HandshakeError::Connection(
                    String::from_str("the peer's handshake did not match ours"),
                ),
            )
        }
    }
}

/// Errors raised while exchanging handshakes with a peer.
#[derive(Debug, Clone, PartialEq, Eq)]
pub enum HandshakeError {
    /// The transport failed, or the peer's handshake did not validate.
    Connection(String),
}

} // verus!
