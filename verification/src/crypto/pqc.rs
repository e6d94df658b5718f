//! Hybrid post-quantum encapsulation: a Curve25519 part and an ML-KEM-768
//! part, combined through HKDF-SHA256 into a 512-bit session secret.
//!
//! The elliptic-curve and lattice operations are simulated: a public key is
//! its private key XOR the X25519 base point, the classical shared secret is
//! the byte-wise XOR of a private and a public key (so both sides obtain the
//! same one), and the KEM secret and ciphertext are random bytes, the KEM
//! secret being handed to the decapsulating side directly. The sizes, the
//! combination and the checks are those of the real scheme.
use vstd::prelude::*;
use crate::crypto::keys::to_array32;
use crate::ext::entropy::random_bytes;
use crate::ext::kdf::{hkdf_sha256, hkdf_sha256_expand};

verus! {

pub const ML_KEM_768_CIPHERTEXT_LEN: usize = 1088;
pub const ML_KEM_768_PUBLIC_KEY_LEN: usize = 1184;
pub const ML_KEM_768_SECRET_KEY_LEN: usize = 2400;
pub const CURVE25519_KEY_LEN: usize = 32;
/// Length of the combined session secret: 512 bits.
pub const COMBINED_SECRET_LEN: usize = 64;

#[derive(Debug, Clone, Copy, PartialEq, Eq, Structural)]
pub enum PqcError {
    InvalidPublicKey,
    InvalidCiphertext,
    DerivationFailed,
}

/// Public half of a hybrid key pair.
#[derive(Debug, Clone, PartialEq, Eq)]
pub struct HybridPublicKey {
    pub curve25519_public: [u8; 32],
    pub ml_kem_public: Vec<u8>,
}

/// Hybrid key pair for the post-quantum handshake.
pub struct HybridKeypair {
    pub curve25519_private: [u8; 32],
    pub curve25519_public: [u8; 32],
    pub ml_kem_secret: Vec<u8>,
    pub ml_kem_public: Vec<u8>,
}

/// Hybrid ciphertext sent to the responder.
#[derive(Debug, Clone, PartialEq, Eq)]
pub struct HybridCiphertext {
    pub ephemeral_curve25519: [u8; 32],
    pub ml_kem_ciphertext: Vec<u8>,
}

/// HKDF salt of the hybrid combination.
pub open spec fn hybrid_salt() -> Seq<u8> {
    vstd::utf8::encode_utf8("pqc-hybrid-salt-v1"@)
}

/// HKDF label of the hybrid combination.
pub open spec fn hybrid_label() -> Seq<u8> {
    vstd::utf8::encode_utf8("mlkem768-curve25519-session-key"@)
}

/// Byte-wise XOR of two byte strings, as long as the first.
pub open spec fn xor_bytes(a: Seq<u8>, b: Seq<u8>) -> Seq<u8> {
    Seq::new(a.len(), |i: int| a[i] ^ b[i])
}

/// The X25519 base point, `u = 9`, as 32 little-endian bytes.
pub open spec fn x25519_basepoint() -> Seq<u8> {
    Seq::new(32, |i: int| if i == 0 { 9u8 } else { 0u8 })
}

/// The simulated public key of a private key: the private key XOR the base
/// point.
pub open spec fn simulated_public(private: Seq<u8>) -> Seq<u8> {
    xor_bytes(private, x25519_basepoint())
}

/// The session secret of a classical part `ecdh` and a KEM part `kem`.
pub open spec fn hybrid_secret(ecdh: Seq<u8>, kem: Seq<u8>) -> Seq<u8> {
    hkdf_sha256(hybrid_salt(), ecdh + kem, hybrid_label(), COMBINED_SECRET_LEN as nat)
}

fn xor32(a: &[u8; 32], b: &[u8; 32]) -> (r: Vec<u8>)
    ensures
        r@ == xor_bytes(a@, b@),
{
    let mut out: Vec<u8> = Vec::new();
    let mut i: usize = 0;
    while i < 32
        invariant
            0 <= i <= 32,
            a@.len() == 32,
            out@ == xor_bytes(a@, b@).take(i as int),
        decreases 32 - i,
    {
        out.push(a[i] ^ b[i]);
        i = i + 1;
        assert(out@ =~= xor_bytes(a@, b@).take(i as int));
    }
    assert(out@ =~= xor_bytes(a@, b@));
    out
}

fn basepoint() -> (r: [u8; 32])
    ensures
        r@ == x25519_basepoint(),
{
    let mut b = [0u8; 32];
    b[0] = 9;
    assert(b@ =~= x25519_basepoint());
    b
}

/// The simulated public key of `private`.
fn public_of(private: &[u8; 32]) -> (r: [u8; 32])
    ensures
        r@ == simulated_public(private@),
{
    let v = xor32(private, &basepoint());
    to_array32(&v)
}

/// HKDF of the two parts into the 64-byte session secret.
fn combine(ecdh: Vec<u8>, kem: &[u8]) -> (r: [u8; 64])
    ensures
        r@ == hybrid_secret(ecdh@, kem@),
{
    let mut combined = ecdh;
    let ghost first = combined@;
    let mut i: usize = 0;
    while i < kem.len()
        invariant
            0 <= i <= kem@.len(),
            combined@ == first + kem@.take(i as int),
        decreases kem@.len() - i,
    {
        combined.push(kem[i]);
        i = i + 1;
        assert(combined@ =~= first + kem@.take(i as int));
    }
    assert(kem@.take(kem@.len() as int) =~= kem@);
    let okm = hkdf_sha256_expand(
        "pqc-hybrid-salt-v1".as_bytes(),
        combined.as_slice(),
        "mlkem768-curve25519-session-key".as_bytes(),
        COMBINED_SECRET_LEN,
    );
    let mut out = [0u8; 64];
    let mut j: usize = 0;
    while j < 64
        invariant
            0 <= j <= 64,
            okm@.len() == 64,
            forall|k: int| 0 <= k < j ==> out@[k] == okm@[k],
        decreases 64 - j,
    {
        out[j] = okm[j];
        j = j + 1;
    }
    assert(out@ =~= okm@);
    out
}

impl HybridKeypair {
    /// A fresh key pair of the scheme's sizes: a random private key with
    /// its simulated public key, and random KEM material.
    pub fn generate() -> (r: Self)
        ensures
            r.curve25519_public@ == simulated_public(r.curve25519_private@),
            r.ml_kem_secret@.len() == ML_KEM_768_SECRET_KEY_LEN,
            r.ml_kem_public@.len() == ML_KEM_768_PUBLIC_KEY_LEN,
    {
        let private = to_array32(&random_bytes(CURVE25519_KEY_LEN));
        let public = public_of(&private);
        let ml_kem_secret = random_bytes(ML_KEM_768_SECRET_KEY_LEN);
        let ml_kem_public = random_bytes(ML_KEM_768_PUBLIC_KEY_LEN);
        HybridKeypair {
            curve25519_private: private,
            curve25519_public: public,
            ml_kem_secret,
            ml_kem_public,
        }
    }

    /// The public half of the pair.
    pub fn public_key(&self) -> (r: HybridPublicKey)
        ensures
            r.curve25519_public == self.curve25519_public,
            r.ml_kem_public@ == self.ml_kem_public@,
    {
        HybridPublicKey {
            curve25519_public: self.curve25519_public,
            ml_kem_public: self.ml_kem_public.clone(),
        }
    }
}

/// Whether `ct` and `secret` are what encapsulating for `remote_public`
/// with the ephemeral private key `eph_private` and the KEM secret
/// `kem_secret` gives.
pub open spec fn encapsulates(
    remote_public: Seq<u8>,
    eph_private: Seq<u8>,
    kem_secret: Seq<u8>,
    ct: HybridCiphertext,
    secret: Seq<u8>,
) -> bool {
    &&& eph_private.len() == CURVE25519_KEY_LEN
    &&& kem_secret.len() == 32
    &&& ct.ephemeral_curve25519@ == simulated_public(eph_private)
    &&& ct.ml_kem_ciphertext@.len() == ML_KEM_768_CIPHERTEXT_LEN
    &&& secret == hybrid_secret(xor_bytes(eph_private, remote_public), kem_secret)
}

/// Encapsulates a hybrid secret for `remote_pub`: the ciphertext for the
/// responder and the 512-bit secret, derived from a fresh ephemeral key and
/// a fresh KEM secret.
pub fn hybrid_encapsulate(remote_pub: &HybridPublicKey) -> (r: Result<(HybridCiphertext, [u8; 64]), PqcError>)
    ensures
        r is Ok,
        exists|eph_private: Seq<u8>, kem_secret: Seq<u8>|
            #[trigger] encapsulates(remote_pub.curve25519_public@, eph_private, kem_secret, r->Ok_0.0, r->Ok_0.1@),
{
    let eph_private = to_array32(&random_bytes(CURVE25519_KEY_LEN));
    let eph_public = public_of(&eph_private);
    let ecdh = xor32(&eph_private, &remote_pub.curve25519_public);
    let kem_secret = random_bytes(32);
    let kem_ciphertext = random_bytes(ML_KEM_768_CIPHERTEXT_LEN);
    let secret = combine(ecdh, kem_secret.as_slice());
    let ciphertext = HybridCiphertext { ephemeral_curve25519: eph_public, ml_kem_ciphertext: kem_ciphertext };
    let result: Result<(HybridCiphertext, [u8; 64]), PqcError> = Ok((ciphertext, secret));
    assert(encapsulates(remote_pub.curve25519_public@, eph_private@, kem_secret@, result->Ok_0.0, result->Ok_0.1@));
    result
}

/// Decapsulates `ciphertext` with the local key pair and the KEM secret:
/// a KEM ciphertext of the wrong length is refused, otherwise the 512-bit
/// secret of the reconstructed classical part and the KEM secret.
pub fn hybrid_decapsulate(local_keypair: &HybridKeypair, ciphertext: &HybridCiphertext, simulated_kem_ss: &[u8; 32]) -> (r:
    Result<[u8; 64], PqcError>)
    ensures
        ciphertext.ml_kem_ciphertext@.len() != ML_KEM_768_CIPHERTEXT_LEN ==> r == Err::<[u8; 64], PqcError>(
            PqcError::InvalidCiphertext,
        ),
        ciphertext.ml_kem_ciphertext@.len() == ML_KEM_768_CIPHERTEXT_LEN ==> r is Ok && r->Ok_0@
            == hybrid_secret(
            xor_bytes(local_keypair.curve25519_private@, ciphertext.ephemeral_curve25519@),
            simulated_kem_ss@,
        ),
{
    if ciphertext.ml_kem_ciphertext.len() != ML_KEM_768_CIPHERTEXT_LEN {
        return Err(PqcError::InvalidCiphertext);
    }
    let ecdh = xor32(&local_keypair.curve25519_private, &ciphertext.ephemeral_curve25519);
    Ok(combine(ecdh, simulated_kem_ss.as_slice()))
}

/// Both sides obtain the same secret: decapsulating what was encapsulated
/// for a key pair's public key, with that key pair and the KEM secret used,
/// gives the encapsulated secret.
pub proof fn lemma_hybrid_agreement(
    local_private: Seq<u8>,
    eph_private: Seq<u8>,
    kem_secret: Seq<u8>,
    ct: HybridCiphertext,
    secret: Seq<u8>,
)
    requires
        local_private.len() == CURVE25519_KEY_LEN,
        encapsulates(simulated_public(local_private), eph_private, kem_secret, ct, secret),
    ensures
        secret == hybrid_secret(xor_bytes(local_private, ct.ephemeral_curve25519@), kem_secret),
{
    let b = x25519_basepoint();
    let lhs = xor_bytes(eph_private, simulated_public(local_private));
    let rhs = xor_bytes(local_private, simulated_public(eph_private));
    assert forall|i: int| 0 <= i < 32 implies #[trigger] lhs[i] == rhs[i] by {
        let e = eph_private[i];
        let l = local_private[i];
        let c = b[i];
        assert(e ^ (l ^ c) == l ^ (e ^ c)) by (bit_vector);
    }
    assert(lhs =~= rhs);
}

} // verus!
