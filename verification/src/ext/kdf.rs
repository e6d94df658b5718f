//! Trusted view of `hkdf`: HKDF over SHA-256 (RFC 5869).
use vstd::prelude::*;

verus! {

/// Largest output HKDF-SHA256 can produce: 255 blocks of 32 bytes.
pub const HKDF_SHA256_MAX_OUTPUT: usize = 8160;

/// The first `len` bytes of HKDF-SHA256 output keyed by `salt` and `ikm`,
/// expanded with `info`.
pub uninterp spec fn hkdf_sha256(salt: Seq<u8>, ikm: Seq<u8>, info: Seq<u8>, len: nat) -> Seq<u8>;

/// `Hkdf::<Sha256>::new(Some(salt), ikm)` followed by `expand(info, ..)`
/// into `len` bytes. Expansion only fails for outputs longer than
/// [`HKDF_SHA256_MAX_OUTPUT`], which the precondition rules out, so the
/// output is the HKDF of the arguments, `len` bytes long.
#[verifier::external_body]
pub(crate) fn hkdf_sha256_expand(salt: &[u8], ikm: &[u8], info: &[u8], len: usize) -> (r: Vec<u8>)
    requires
        len <= HKDF_SHA256_MAX_OUTPUT,
    ensures
        r@ == hkdf_sha256(salt@, ikm@, info@, len as nat),
        r@.len() == len,
{
    let hk = hkdf::Hkdf::<sha2::Sha256>::new(Some(salt), ikm);
    let mut okm = vec![0u8; len];
    let _ = hk.expand(info, &mut okm);
    okm
}

} // verus!
