//! The SHA-1 digest used to verify downloaded pieces and to identify the
//! torrent's info dictionary.
use vstd::prelude::*;

verus! {

/// The SHA-1 digest of a byte sequence: a function of the bytes alone,
/// computed by the outside hash implementation.
pub uninterp spec fn sha1_of(data: Seq<u8>) -> Seq<u8>;

/// Relies on `sha1::Sha1::digest`: the 20-byte SHA-1 digest depends on the
/// input bytes alone.
#[verifier::external_body]
pub fn sha1_digest(data: &[u8]) -> (r: Vec<u8>)
    ensures
        r@ == sha1_of(data@),
        r@.len() == 20,
{
    let digest = <sha1::Sha1 as sha1::Digest>::digest(data);
    digest.to_vec()
}

} // verus!
