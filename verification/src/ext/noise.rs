//! Trusted view of `snow`, the Noise protocol implementation: building a
//! Noise_XX_25519_ChaChaPoly_SHA256 handshake, running it, and the
//! transport it turns into. The states are opaque; what the wrappers state
//! are the sizes that `snow`'s source fixes for this pattern.
use vstd::prelude::*;
use snow::{Builder, HandshakeState, TransportState};

verus! {

#[verifier::external_type_specification]
#[verifier::external_body]
pub struct ExSnowError(snow::Error);

#[verifier::external_type_specification]
#[verifier::external_body]
pub struct ExHandshakeState(snow::HandshakeState);

#[verifier::external_type_specification]
#[verifier::external_body]
pub struct ExTransportState(snow::TransportState);

/// Size of an X25519 key, and of the SHA-256 handshake hash.
pub const NOISE_KEY_LEN: usize = 32;
/// Size of the ChaChaPoly authentication tag.
pub const NOISE_TAG_LEN: usize = 16;
/// Largest Noise message.
pub const NOISE_MAX_MESSAGE_LEN: usize = 65535;
/// The name of the one Noise pattern these contracts speak of.
pub open spec fn xx_pattern() -> Seq<char> {
    "Noise_XX_25519_ChaChaPoly_SHA256"@
}

/// Room a handshake message of the pattern needs besides its payload, at
/// most: an ephemeral key, an encrypted static key with its tag, and the
/// payload's tag.
pub const NOISE_HANDSHAKE_OVERHEAD: usize = 96;

/// `Builder::generate_keypair` for the pattern named `pattern`, which must
/// be [`xx_pattern`] (so parsing it cannot fail): a fresh X25519 pair,
/// private and public key of 32 bytes each. With the default resolver the
/// random source and the X25519 implementation always resolve, so it
/// succeeds.
#[verifier::external_body]
pub(crate) fn noise_generate_keypair(pattern: &str) -> (r: Result<(Vec<u8>, Vec<u8>), snow::Error>)
    requires
        pattern@ == xx_pattern(),
    ensures
        r is Ok,
        r->Ok_0.0@.len() == NOISE_KEY_LEN && r->Ok_0.1@.len() == NOISE_KEY_LEN,
{
    let builder = Builder::new(pattern.parse().expect("patrón Noise válido"));
    builder.generate_keypair().map(|kp| (kp.private, kp.public))
}

/// `Builder::build_initiator` for the pattern named `pattern`, which must
/// be [`xx_pattern`], with the given static key. The key is copied into 32 bytes, so a longer one would make `snow`
/// panic; with the default resolver every primitive of the pattern
/// resolves and the build succeeds.
#[verifier::external_body]
pub(crate) fn noise_build_initiator(pattern: &str, local_private: &[u8]) -> (r: Result<HandshakeState, snow::Error>)
    requires
        pattern@ == xx_pattern(),
        local_private@.len() <= NOISE_KEY_LEN,
    ensures
        r is Ok,
{
    Builder::new(pattern.parse().expect("patrón Noise válido"))
        .local_private_key(local_private)
        .build_initiator()
}

/// `Builder::build_responder`, as [`noise_build_initiator`] for the other
/// side.
#[verifier::external_body]
pub(crate) fn noise_build_responder(pattern: &str, local_private: &[u8]) -> (r: Result<HandshakeState, snow::Error>)
    requires
        pattern@ == xx_pattern(),
        local_private@.len() <= NOISE_KEY_LEN,
    ensures
        r is Ok,
{
    Builder::new(pattern.parse().expect("patrón Noise válido"))
        .local_private_key(local_private)
        .build_responder()
}

/// `HandshakeState::write_message`: writes the next handshake message into
/// `out` and returns its length, which fits in `out`. `snow` checks the
/// room for a static key before writing its tag, so a buffer without
/// [`NOISE_HANDSHAKE_OVERHEAD`] bytes besides the payload can make it panic.
/// Every message of the pattern (the only one this library builds states
/// for) carries the payload and at least one 32-byte key, and at most
/// [`NOISE_HANDSHAKE_OVERHEAD`] bytes besides the payload; nothing past the
/// message is written.
#[verifier::external_body]
pub(crate) fn noise_write_message(hs: &mut HandshakeState, payload: &[u8], out: &mut [u8]) -> (r: Result<usize, snow::Error>)
    requires
        payload@.len() + NOISE_HANDSHAKE_OVERHEAD <= old(out)@.len(),
    ensures
        final(out)@.len() == old(out)@.len(),
        r is Ok ==> payload@.len() + NOISE_KEY_LEN <= r->Ok_0 <= payload@.len() + NOISE_HANDSHAKE_OVERHEAD,
        r is Ok ==> final(out)@.skip(r->Ok_0 as int) == old(out)@.skip(r->Ok_0 as int),
{
    hs.write_message(payload, out)
}

/// `HandshakeState::read_message`: processes an incoming handshake message
/// and returns the length of its payload, written into `out`. A message
/// longer than the largest Noise message is refused. Every message of the
/// pattern carries, besides the payload, at least one 32-byte key and at
/// most [`NOISE_HANDSHAKE_OVERHEAD`] bytes; nothing past the payload is
/// written into `out`.
#[verifier::external_body]
pub(crate) fn noise_read_message(hs: &mut HandshakeState, message: &[u8], out: &mut [u8]) -> (r: Result<usize, snow::Error>)
    ensures
        final(out)@.len() == old(out)@.len(),
        message@.len() > NOISE_MAX_MESSAGE_LEN ==> r is Err,
        r is Ok ==> r->Ok_0 <= old(out)@.len(),
        r is Ok ==> r->Ok_0 + NOISE_KEY_LEN <= message@.len() <= r->Ok_0 + NOISE_HANDSHAKE_OVERHEAD,
        r is Ok ==> final(out)@.skip(r->Ok_0 as int) == old(out)@.skip(r->Ok_0 as int),
{
    hs.read_message(message, out)
}

/// `HandshakeState::is_handshake_finished`.
#[verifier::external_body]
pub(crate) fn noise_is_finished(hs: &HandshakeState) -> (r: bool) {
    hs.is_handshake_finished()
}

/// `HandshakeState::get_remote_static`, copied: the peer's static key, of
/// 32 bytes, once it has been received.
#[verifier::external_body]
pub(crate) fn noise_remote_static(hs: &HandshakeState) -> (r: Option<Vec<u8>>)
    ensures
        r is Some ==> r->Some_0@.len() == NOISE_KEY_LEN,
{
    hs.get_remote_static().map(|k| k.to_vec())
}

/// `HandshakeState::get_handshake_hash`, copied: 32 bytes of SHA-256.
#[verifier::external_body]
pub(crate) fn noise_handshake_hash(hs: &HandshakeState) -> (r: Vec<u8>)
    ensures
        r@.len() == NOISE_KEY_LEN,
{
    hs.get_handshake_hash().to_vec()
}

/// `HandshakeState::into_transport_mode`, without its error: the one way it
/// fails is a handshake that has not finished, so `None` means exactly that.
#[verifier::external_body]
pub(crate) fn noise_into_transport(hs: HandshakeState) -> (r: Option<TransportState>) {
    hs.into_transport_mode().ok()
}

/// `TransportState::write_message`: encrypts `payload` into `out`. It fails
/// when the ciphertext (payload and tag) does not fit in `out` or exceeds
/// the largest Noise message; on success the ciphertext is the payload's
/// length plus the tag.
#[verifier::external_body]
pub(crate) fn noise_encrypt(t: &mut TransportState, payload: &[u8], out: &mut [u8]) -> (r: Result<usize, snow::Error>)
    ensures
        final(out)@.len() == old(out)@.len(),
        payload@.len() + NOISE_TAG_LEN > old(out)@.len() || payload@.len() + NOISE_TAG_LEN
            > NOISE_MAX_MESSAGE_LEN ==> r is Err,
        r is Ok ==> r->Ok_0 == payload@.len() + NOISE_TAG_LEN,
{
    t.write_message(payload, out)
}

/// `TransportState::read_message`: decrypts `ciphertext` into `out`. It
/// fails for ciphertexts shorter than the tag or longer than the largest
/// Noise message; on success the plaintext is the ciphertext's length
/// minus the tag, and fits in `out`.
#[verifier::external_body]
pub(crate) fn noise_decrypt(t: &mut TransportState, ciphertext: &[u8], out: &mut [u8]) -> (r: Result<usize, snow::Error>)
    ensures
        final(out)@.len() == old(out)@.len(),
        ciphertext@.len() < NOISE_TAG_LEN || ciphertext@.len() > NOISE_MAX_MESSAGE_LEN ==> r is Err,
        r is Ok ==> r->Ok_0 == ciphertext@.len() - NOISE_TAG_LEN && r->Ok_0 <= old(out)@.len(),
{
    t.read_message(ciphertext, out)
}

} // verus!
