//! Random bytes from `rand`'s thread-local generator.
use vstd::prelude::*;
use rand::RngCore;

verus! {

/// `n` bytes filled by `rand::thread_rng().fill_bytes`. Which bytes come out
/// is left to chance; only the length is stated.
#[verifier::external_body]
pub(crate) fn random_bytes(n: usize) -> (r: Vec<u8>)
    ensures
        r@.len() == n,
{
    let mut bytes = vec![0u8; n];
    rand::thread_rng().fill_bytes(&mut bytes);
    bytes
}

} // verus!
