//! Digests used for fingerprints and key identifiers.
use vstd::prelude::*;

verus! {

/// The SHA3-512 digest of `data`.
pub uninterp spec fn sha3_512(data: Seq<u8>) -> Seq<u8>;

/// The SHA3-256 digest of `data`.
pub uninterp spec fn sha3_256(data: Seq<u8>) -> Seq<u8>;

/// Relies on sha3::Sha3_512 (Digest::digest): the 64-byte SHA3-512 digest.
#[verifier::external_body]
pub(crate) fn sha3_512_digest(data: &[u8]) -> (r: Vec<u8>)
    ensures
        r@ == sha3_512(data@),
        r@.len() == 64,
{
    <sha3::Sha3_512 as sha3::Digest>::digest(data).to_vec()
}

/// Relies on sha3::Sha3_256 (Digest::digest): the 32-byte SHA3-256 digest.
#[verifier::external_body]
pub(crate) fn sha3_256_digest(data: &[u8]) -> (r: Vec<u8>)
    ensures
        r@ == sha3_256(data@),
        r@.len() == 32,
{
    <sha3::Sha3_256 as sha3::Digest>::digest(data).to_vec()
}

} // verus!
