use vault::crypto::anti_tamper::{AntiTamperContext, AntiTamperError};

#[test]
fn valid_binary_passes_integrity() {
    let valid_hash = [0x55; 32];
    let mut ctx = AntiTamperContext::new(valid_hash);
    ctx.set_ephemeral_keys(&[1, 2, 3, 4, 5, 6, 7, 8]);

    assert!(ctx.verify_integrity(&valid_hash, false).is_ok());
    assert!(!ctx.is_compromised());
    assert!(ctx.has_keys());
}

#[test]
fn tampered_binary_destroys_keys_and_blocks() {
    let valid_hash = [0x55; 32];
    let altered_hash = [0xAA; 32];
    let mut ctx = AntiTamperContext::new(valid_hash);
    ctx.set_ephemeral_keys(&[1, 2, 3, 4, 5, 6, 7, 8]);

    let err = ctx.verify_integrity(&altered_hash, false).unwrap_err();
    assert_eq!(err, AntiTamperError::InvalidSignatureHash);
    assert!(ctx.is_compromised());
    assert!(!ctx.has_keys());
}

#[test]
fn debugger_detection_destroys_keys() {
    let valid_hash = [0x55; 32];
    let mut ctx = AntiTamperContext::new(valid_hash);
    ctx.set_ephemeral_keys(&[1, 2, 3, 4]);

    let err = ctx.verify_integrity(&valid_hash, true).unwrap_err();
    assert_eq!(err, AntiTamperError::DebuggerDetected);
    assert!(ctx.is_compromised());
    assert!(!ctx.has_keys());
}

#[test]
fn signature_hash_is_sha256() {
    let digest = AntiTamperContext::compute_signature_hash(b"abc");
    assert_eq!(
        digest,
        [
            0xba, 0x78, 0x16, 0xbf, 0x8f, 0x01, 0xcf, 0xea, 0x41, 0x41, 0x40, 0xde, 0x5d, 0xae, 0x22, 0x23, 0xb0, 0x03,
            0x61, 0xa3, 0x96, 0x17, 0x7a, 0x9c, 0xb4, 0x10, 0xff, 0x61, 0xf2, 0x00, 0x15, 0xad,
        ]
    );
    let mut ctx = AntiTamperContext::new(digest);
    ctx.set_ephemeral_keys(&[9]);
    let computed = AntiTamperContext::compute_signature_hash(b"abc");
    assert!(ctx.verify_integrity(&computed, false).is_ok());
    let other = AntiTamperContext::compute_signature_hash(b"abd");
    assert_eq!(ctx.verify_integrity(&other, false).unwrap_err(), AntiTamperError::InvalidSignatureHash);
}

#[test]
fn clean_check_after_compromise_clears_the_mark_but_not_the_keys() {
    let hash = [1u8; 32];
    let mut ctx = AntiTamperContext::new(hash);
    ctx.set_ephemeral_keys(&[7, 7]);
    ctx.trigger_zeroize_and_block();
    assert!(ctx.is_compromised());
    assert!(!ctx.has_keys());
    assert!(ctx.verify_integrity(&hash, false).is_ok());
    assert!(!ctx.is_compromised());
    assert!(!ctx.has_keys());
    assert_eq!(AntiTamperError::KeysZeroized.message(), "clave efímera revocada y destruida");
}
