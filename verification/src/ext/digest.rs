//! Trusted view of `sha2`: SHA-256 digests.
use vstd::prelude::*;
use sha2::Digest;

verus! {

/// The SHA-256 digest of `data`.
pub uninterp spec fn sha256(data: Seq<u8>) -> Seq<u8>;

/// `Sha256::digest`: the 32-byte SHA-256 digest of `data`, a function of
/// `data` alone.
#[verifier::external_body]
pub(crate) fn sha256_digest(data: &[u8]) -> (r: [u8; 32])
    ensures
        r@ == sha256(data@),
{
    sha2::Sha256::digest(data).into()
}

} // verus!
