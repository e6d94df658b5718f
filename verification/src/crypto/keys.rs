//! Key material derived from a Noise session.
//!
//! The volume unlock key never travels nor rests on the host: both ends
//! derive it locally from the authenticated session's handshake hash and a
//! device secret that the frontend keeps in its keystore.
use vstd::prelude::*;
use crate::ext::kdf::{hkdf_sha256, hkdf_sha256_expand};

verus! {

/// Length of the unlock key, fit for LUKS2 or XChaCha20.
pub const VAULT_UNLOCK_KEY_LEN: usize = 32;

/// HKDF `info` label of the unlock key.
pub open spec fn unlock_key_label() -> Seq<u8> {
    vstd::utf8::encode_utf8("vault-unlock-key-v1"@)
}

/// The 32 bytes of `v` as an array.
pub fn to_array32(v: &Vec<u8>) -> (r: [u8; 32])
    requires
        v@.len() == 32,
    ensures
        r@ == v@,
{
    let mut a = [0u8; 32];
    let mut i: usize = 0;
    while i < 32
        invariant
            0 <= i <= 32,
            v@.len() == 32,
            forall|j: int| 0 <= j < i ==> a@[j] == v@[j],
        decreases 32 - i,
    {
        a[i] = v[i];
        i = i + 1;
    }
    assert(a@ =~= v@);
    a
}

/// The vault unlock key: HKDF-SHA256 with the handshake hash as salt, the
/// device secret as input key material and `vault-unlock-key-v1` as label.
pub fn derive_vault_unlock_key(handshake_hash: &[u8], device_master_secret: &[u8]) -> (r: [u8; 32])
    ensures
        r@ == hkdf_sha256(handshake_hash@, device_master_secret@, unlock_key_label(), 32),
{
    let info = "vault-unlock-key-v1".as_bytes();
    let okm = hkdf_sha256_expand(handshake_hash, device_master_secret, info, VAULT_UNLOCK_KEY_LEN);
    to_array32(&okm)
}

/// An application subkey, kept apart from the unlock key by its own
/// `label`: HKDF-SHA256 of the same salt and input key material.
pub fn derive_subkey(handshake_hash: &[u8], device_master_secret: &[u8], label: &[u8]) -> (r: [u8; 32])
    ensures
        r@ == hkdf_sha256(handshake_hash@, device_master_secret@, label@, 32),
{
    let okm = hkdf_sha256_expand(handshake_hash, device_master_secret, label, 32);
    to_array32(&okm)
}

} // verus!
