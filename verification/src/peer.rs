//! The peer wire protocol: message framing and the per-piece download
//! client.
pub mod client;
pub mod message;

pub use message::{PeerMessage, PeerMessageId, PeerMessageView, PeerParseError};
