use vault::crypto::keys::{derive_subkey, derive_vault_unlock_key};
use vault::crypto::pqc::{
    hybrid_decapsulate, hybrid_encapsulate, HybridCiphertext, HybridKeypair, PqcError, COMBINED_SECRET_LEN,
    CURVE25519_KEY_LEN, ML_KEM_768_CIPHERTEXT_LEN, ML_KEM_768_PUBLIC_KEY_LEN, ML_KEM_768_SECRET_KEY_LEN,
};

#[test]
fn same_inputs_give_same_key_deterministically() {
    let hh = [1u8; 32];
    let secret = [2u8; 32];
    let k1 = derive_vault_unlock_key(&hh, &secret);
    let k2 = derive_vault_unlock_key(&hh, &secret);
    assert_eq!(k1, k2);
}

#[test]
fn different_handshake_hash_gives_different_key() {
    let secret = [2u8; 32];
    let k1 = derive_vault_unlock_key(&[1u8; 32], &secret);
    let k2 = derive_vault_unlock_key(&[9u8; 32], &secret);
    assert_ne!(k1, k2);
}

#[test]
fn unlock_key_and_subkey_differ() {
    let hh = [3u8; 32];
    let secret = [4u8; 32];
    let unlock = derive_vault_unlock_key(&hh, &secret);
    let sub = derive_subkey(&hh, &secret, b"session-metadata-v1");
    assert_ne!(unlock.to_vec(), sub.to_vec());
}

#[test]
fn subkey_is_hkdf_sha256() {
    // The first RFC 5869 test vector (SHA-256, basic): the first 32 bytes of the output keying material.
    let ikm = [0x0bu8; 22];
    let salt: Vec<u8> = (0x00u8..=0x0c).collect();
    let info: Vec<u8> = (0xf0u8..=0xf9).collect();
    let okm = derive_subkey(&salt, &ikm, &info);
    assert_eq!(
        okm,
        [
            0x3c, 0xb2, 0x5f, 0x25, 0xfa, 0xac, 0xd5, 0x7a, 0x90, 0x43, 0x4f, 0x64, 0xd0, 0x36, 0x2f, 0x2a, 0x2d, 0x2d,
            0x0a, 0x90, 0xcf, 0x1a, 0x5a, 0x4c, 0x5d, 0xb0, 0x2d, 0x56, 0xec, 0xc4, 0xc5, 0xbf,
        ]
    );
}

#[test]
fn unlock_key_is_the_subkey_of_its_label() {
    let hh = [5u8; 32];
    let secret = [6u8; 32];
    assert_eq!(derive_vault_unlock_key(&hh, &secret), derive_subkey(&hh, &secret, b"vault-unlock-key-v1"));
}

#[test]
fn hybrid_keypair_generation_lengths() {
    let kp = HybridKeypair::generate();
    assert_eq!(kp.curve25519_private.len(), CURVE25519_KEY_LEN);
    assert_eq!(kp.ml_kem_public.len(), ML_KEM_768_PUBLIC_KEY_LEN);
    assert_eq!(kp.ml_kem_secret.len(), ML_KEM_768_SECRET_KEY_LEN);
}

#[test]
fn hybrid_encapsulate_generates_512bit_secret() {
    let kp = HybridKeypair::generate();
    let pubkey = kp.public_key();
    let (ct, secret) = hybrid_encapsulate(&pubkey).unwrap();

    assert_eq!(ct.ml_kem_ciphertext.len(), ML_KEM_768_CIPHERTEXT_LEN);
    assert_eq!(secret.len(), COMBINED_SECRET_LEN);
}

#[test]
fn decapsulation_checks_the_ciphertext_length_and_is_deterministic() {
    let kp = HybridKeypair::generate();
    let kem_ss = [7u8; 32];
    let short = HybridCiphertext { ephemeral_curve25519: [1u8; 32], ml_kem_ciphertext: vec![0u8; 10] };
    assert_eq!(hybrid_decapsulate(&kp, &short, &kem_ss).unwrap_err(), PqcError::InvalidCiphertext);
    let ct = HybridCiphertext { ephemeral_curve25519: [1u8; 32], ml_kem_ciphertext: vec![0u8; ML_KEM_768_CIPHERTEXT_LEN] };
    let a = hybrid_decapsulate(&kp, &ct, &kem_ss).unwrap();
    let b = hybrid_decapsulate(&kp, &ct, &kem_ss).unwrap();
    assert_eq!(a, b);
    let other = hybrid_decapsulate(&kp, &ct, &[8u8; 32]).unwrap();
    assert_ne!(a, other);
}

#[test]
fn public_key_copies_the_public_half() {
    let kp = HybridKeypair::generate();
    let pk = kp.public_key();
    assert_eq!(pk.curve25519_public, kp.curve25519_public);
    assert_eq!(pk.ml_kem_public, kp.ml_kem_public);
}

fn expected_hybrid_secret(ecdh: &[u8], kem: &[u8]) -> [u8; 64] {
    let mut ikm = ecdh.to_vec();
    ikm.extend_from_slice(kem);
    let hk = hkdf::Hkdf::<sha2::Sha256>::new(Some(b"pqc-hybrid-salt-v1"), &ikm);
    let mut okm = [0u8; 64];
    hk.expand(b"mlkem768-curve25519-session-key", &mut okm).unwrap();
    okm
}

#[test]
fn both_sides_obtain_the_same_hybrid_secret() {
    let mut basepoint = [0u8; 32];
    basepoint[0] = 9;
    let kp = HybridKeypair::generate();
    for i in 0..32 {
        assert_eq!(kp.curve25519_public[i], kp.curve25519_private[i] ^ basepoint[i]);
    }
    let (ct, _) = hybrid_encapsulate(&kp.public_key()).unwrap();
    for i in 0..32 {
        assert_eq!(ct.ephemeral_curve25519[i] ^ basepoint[i] ^ kp.curve25519_public[i], ct.ephemeral_curve25519[i] ^ kp.curve25519_private[i]);
    }
    // An encapsulation with a known ephemeral key and KEM secret, as the
    // initiator computes it, and the responder's decapsulation.
    let eph_private = [0x5Au8; 32];
    let mut eph_public = [0u8; 32];
    let mut initiator_ecdh = [0u8; 32];
    for i in 0..32 {
        eph_public[i] = eph_private[i] ^ basepoint[i];
        initiator_ecdh[i] = eph_private[i] ^ kp.curve25519_public[i];
    }
    let kem_ss = [0x33u8; 32];
    let ct = HybridCiphertext { ephemeral_curve25519: eph_public, ml_kem_ciphertext: vec![0u8; 1088] };
    let responder = hybrid_decapsulate(&kp, &ct, &kem_ss).unwrap();
    assert_eq!(responder, expected_hybrid_secret(&initiator_ecdh, &kem_ss));
}
