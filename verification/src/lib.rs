pub mod bencode;
pub mod byteops;
pub mod digest;
pub mod handshake;
pub mod peer;
pub mod torrent;
pub mod tracker;

pub use handshake::HANDSHAKE_LENGTH_SIZE;
pub use handshake::HANDSHAKE_SIZE;
pub use handshake::LENGTH_BYTE_SIZE;
pub use handshake::RESERVED_SIZE;
pub use torrent::INFO_HASH_SIZE;
pub use tracker::PEER_ID_SIZE;

use vstd::prelude::*;

verus! {

/// Errors reported while turning raw bytes into protocol or descriptor values.
#[derive(Debug, Clone, PartialEq, Eq)]
pub enum ParseError {
    /// The bytes could not be decoded into the expected shape.
    Deserialization(String),
    /// A required field was absent from a decoded descriptor.
    MissingField(String),
}

} // verus!
