use vstd::prelude::*;
use sha2::Digest;

verus! {

/// The SHA-256 digest of a byte string.
pub uninterp spec fn sha256_of(data: Seq<u8>) -> Seq<u8>;

/// The SHA3-256 digest of a byte string.
pub uninterp spec fn sha3_256_of(data: Seq<u8>) -> Seq<u8>;

/// Calls `sha2::Sha256::digest` (through the `Digest` trait of the `digest`
/// crate) on `data`. Trusted: the result is the digest of exactly these bytes,
/// and the output size of SHA-256 is 32 bytes (`U32` in the crate's source).
#[verifier::external_body]
pub(crate) fn sha256(data: &[u8]) -> (res: Vec<u8>)
    ensures
        res@ == sha256_of(data@),
        res@.len() == 32,
{
    sha2::Sha256::digest(data).to_vec()
}

/// Calls `sha3::Sha3_256::digest` (through the `Digest` trait of the `digest`
/// crate) on `data`. Trusted: the result is the digest of exactly these bytes,
/// and the output size of SHA3-256 is 32 bytes (`U32` in the crate's source).
#[verifier::external_body]
pub(crate) fn sha3_256(data: &[u8]) -> (res: Vec<u8>)
    ensures
        res@ == sha3_256_of(data@),
        res@.len() == 32,
{
    sha3::Sha3_256::digest(data).to_vec()
}

} // verus!
