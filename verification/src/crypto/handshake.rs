//! Noise_XX handshake between the Android frontend (initiator) and the
//! runtime (responder).
//!
//! XX gives mutual authentication without a prior PKI: the static keys are
//! exchanged and proven inside the handshake, and pinned on first
//! enrollment. It also gives forward secrecy.
use vstd::prelude::*;
use snow::{HandshakeState, TransportState};
use crate::ext::noise::{
    noise_build_initiator, noise_build_responder, noise_decrypt, noise_encrypt, noise_generate_keypair,
    noise_handshake_hash, noise_into_transport, noise_is_finished, noise_read_message,
    noise_remote_static, noise_write_message, xx_pattern, NOISE_HANDSHAKE_OVERHEAD, NOISE_KEY_LEN, NOISE_MAX_MESSAGE_LEN,
    NOISE_TAG_LEN,
};

verus! {

/// The Noise protocol name used by both sides.
pub const NOISE_PATTERN: &'static str = "Noise_XX_25519_ChaChaPoly_SHA256";

#[derive(Debug)]
pub enum HandshakeError {
    /// An error from the Noise implementation.
    Snow(snow::Error),
    /// The handshake has not finished yet.
    NotFinished,
}

/// A static X25519 key pair.
pub struct StaticKeypair {
    pub private: Vec<u8>,
    pub public: Vec<u8>,
}

/// A fresh static key pair, 32 bytes each. On the Android frontend this
/// would ideally be backed by a hardware keystore.
pub fn generate_static_keypair() -> (r: Result<StaticKeypair, HandshakeError>)
    ensures
        r is Ok,
        r->Ok_0.private@.len() == NOISE_KEY_LEN && r->Ok_0.public@.len() == NOISE_KEY_LEN,
{
    match noise_generate_keypair(NOISE_PATTERN) {
        Ok((private, public)) => Ok(StaticKeypair { private, public }),
        Err(e) => Err(HandshakeError::Snow(e)),
    }
}

/// Which side of the handshake a party plays.
#[derive(Debug, Clone, Copy, PartialEq, Eq, Structural)]
pub enum Role {
    Initiator,
    Responder,
}

/// A handshake in progress.
pub struct VaultHandshake {
    state: HandshakeState,
    pattern: Ghost<Seq<char>>,
    role: Ghost<Role>,
    local_static_private: Ghost<Seq<u8>>,
}

/// What a handshake was started with: the Noise pattern, its side, and the
/// local static private key handed to the Noise implementation.
pub struct HandshakeView {
    pub pattern: Seq<char>,
    pub role: Role,
    pub local_static_private: Seq<u8>,
}

impl View for VaultHandshake {
    type V = HandshakeView;

    closed spec fn view(&self) -> HandshakeView {
        HandshakeView { pattern: self.pattern@, role: self.role@, local_static_private: self.local_static_private@ }
    }
}

impl VaultHandshake {
    /// Starts a handshake in `role` with the local static private key, of
    /// at most 32 bytes (a shorter one is padded with zeros).
    pub fn new(role: Role, local_static_private: &[u8]) -> (r: Result<Self, HandshakeError>)
        requires
            local_static_private@.len() <= NOISE_KEY_LEN,
        ensures
            r is Ok,
            r->Ok_0@ == (HandshakeView { pattern: xx_pattern(), role, local_static_private: local_static_private@ }),
    {
        let built = match role {
            Role::Initiator => noise_build_initiator(NOISE_PATTERN, local_static_private),
            Role::Responder => noise_build_responder(NOISE_PATTERN, local_static_private),
        };
        match built {
            Ok(state) => Ok(
                VaultHandshake {
                    state,
                    pattern: Ghost(NOISE_PATTERN@),
                    role: Ghost(role),
                    local_static_private: Ghost(local_static_private@),
                },
            ),
            Err(e) => Err(HandshakeError::Snow(e)),
        }
    }

    /// Writes the next outgoing handshake message into `out_buf`, which has
    /// room for the payload and [`NOISE_HANDSHAKE_OVERHEAD`] bytes more;
    /// returns the message's length: the payload, at least one 32-byte key,
    /// and at most [`NOISE_HANDSHAKE_OVERHEAD`] bytes besides the payload.
    /// The buffer past the message is left as it was.
    pub fn write_message(&mut self, payload: &[u8], out_buf: &mut [u8]) -> (r: Result<usize, HandshakeError>)
        requires
            payload@.len() + NOISE_HANDSHAKE_OVERHEAD <= old(out_buf)@.len(),
        ensures
            final(self)@ == old(self)@,
            final(out_buf)@.len() == old(out_buf)@.len(),
            r is Ok ==> payload@.len() + NOISE_KEY_LEN <= r->Ok_0 <= payload@.len() + NOISE_HANDSHAKE_OVERHEAD,
            r is Ok ==> final(out_buf)@.skip(r->Ok_0 as int) == old(out_buf)@.skip(r->Ok_0 as int),
            r is Err ==> r->Err_0 is Snow,
    {
        match noise_write_message(&mut self.state, payload, out_buf) {
            Ok(n) => Ok(n),
            Err(e) => Err(HandshakeError::Snow(e)),
        }
    }

    /// Processes an incoming handshake message; returns the length of its
    /// payload, written into `out_buf`: the message without its keys and
    /// tags, which take at least 32 and at most
    /// [`NOISE_HANDSHAKE_OVERHEAD`] bytes. A message longer than the largest
    /// Noise message is refused. The buffer past the payload is left as it
    /// was.
    pub fn read_message(&mut self, msg: &[u8], out_buf: &mut [u8]) -> (r: Result<usize, HandshakeError>)
        ensures
            final(self)@ == old(self)@,
            final(out_buf)@.len() == old(out_buf)@.len(),
            msg@.len() > NOISE_MAX_MESSAGE_LEN ==> r is Err,
            r is Ok ==> r->Ok_0 <= old(out_buf)@.len(),
            r is Ok ==> r->Ok_0 + NOISE_KEY_LEN <= msg@.len() <= r->Ok_0 + NOISE_HANDSHAKE_OVERHEAD,
            r is Ok ==> final(out_buf)@.skip(r->Ok_0 as int) == old(out_buf)@.skip(r->Ok_0 as int),
            r is Err ==> r->Err_0 is Snow,
    {
        match noise_read_message(&mut self.state, msg, out_buf) {
            Ok(n) => Ok(n),
            Err(e) => Err(HandshakeError::Snow(e)),
        }
    }

    /// Whether all messages of the pattern have been exchanged.
    pub fn is_finished(&self) -> (r: bool) {
        noise_is_finished(&self.state)
    }

    /// The peer's static public key, available once the pattern's second
    /// message was received. It is what gets checked against the pin.
    pub fn remote_static_public_key(&self) -> (r: Option<Vec<u8>>)
        ensures
            r is Some ==> r->Some_0@.len() == NOISE_KEY_LEN,
    {
        noise_remote_static(&self.state)
    }

    /// The handshake hash, input for deriving application keys.
    pub fn handshake_hash(&self) -> (r: Vec<u8>)
        ensures
            r@.len() == NOISE_KEY_LEN,
    {
        noise_handshake_hash(&self.state)
    }

    /// Turns a finished handshake into its transport; an unfinished one is
    /// refused with [`HandshakeError::NotFinished`], which is the only way
    /// it fails.
    pub fn into_transport(self) -> (r: Result<VaultTransport, HandshakeError>)
        ensures
            r is Ok || r matches Err(HandshakeError::NotFinished),
            r is Ok ==> r->Ok_0@ == (TransportView { sent: Seq::empty(), received: Seq::empty() }),
    {
        if !noise_is_finished(&self.state) {
            return Err(HandshakeError::NotFinished);
        }
        match noise_into_transport(self.state) {
            Some(transport) => Ok(VaultTransport { transport, sent: Ghost(Seq::empty()), received: Ghost(Seq::empty()) }),
            None => Err(HandshakeError::NotFinished),
        }
    }
}

/// The encrypted transport of a finished handshake.
pub struct VaultTransport {
    transport: TransportState,
    sent: Ghost<Seq<Seq<u8>>>,
    received: Ghost<Seq<Seq<u8>>>,
}

/// What has gone through a transport: the plaintexts it encrypted and the
/// plaintexts it decrypted, in order.
pub struct TransportView {
    pub sent: Seq<Seq<u8>>,
    pub received: Seq<Seq<u8>>,
}

impl View for VaultTransport {
    type V = TransportView;

    closed spec fn view(&self) -> TransportView {
        TransportView { sent: self.sent@, received: self.received@ }
    }
}

impl VaultTransport {
    /// Encrypts `plaintext` into `out_buf`: the ciphertext is the plaintext
    /// and a 16-byte tag, and fails when it does not fit in the buffer or in
    /// a Noise message. An encrypted plaintext is added to what was sent.
    pub fn encrypt(&mut self, plaintext: &[u8], out_buf: &mut [u8]) -> (r: Result<usize, HandshakeError>)
        ensures
            final(out_buf)@.len() == old(out_buf)@.len(),
            plaintext@.len() + NOISE_TAG_LEN > old(out_buf)@.len() || plaintext@.len() + NOISE_TAG_LEN
                > NOISE_MAX_MESSAGE_LEN ==> r is Err,
            r is Ok ==> r->Ok_0 == plaintext@.len() + NOISE_TAG_LEN,
            r is Ok ==> final(self)@ == (TransportView { sent: old(self)@.sent.push(plaintext@), ..old(self)@ }),
            r is Err ==> r->Err_0 is Snow && final(self)@ == old(self)@,
    {
        match noise_encrypt(&mut self.transport, plaintext, out_buf) {
            Ok(n) => {
                self.sent = Ghost(self.sent@.push(plaintext@));
                Ok(n)
            },
            Err(e) => Err(HandshakeError::Snow(e)),
        }
    }

    /// Decrypts `ciphertext` into `out_buf`: the plaintext is the ciphertext
    /// without its 16-byte tag, written at the front of the buffer and added
    /// to what was received.
    pub fn decrypt(&mut self, ciphertext: &[u8], out_buf: &mut [u8]) -> (r: Result<usize, HandshakeError>)
        ensures
            final(out_buf)@.len() == old(out_buf)@.len(),
            ciphertext@.len() < NOISE_TAG_LEN || ciphertext@.len() > NOISE_MAX_MESSAGE_LEN ==> r is Err,
            r is Ok ==> r->Ok_0 == ciphertext@.len() - NOISE_TAG_LEN && r->Ok_0 <= old(out_buf)@.len(),
            r is Ok ==> final(self)@ == (TransportView {
                received: old(self)@.received.push(final(out_buf)@.take(r->Ok_0 as int)),
                ..old(self)@
            }),
            r is Err ==> r->Err_0 is Snow && final(self)@ == old(self)@,
    {
        match noise_decrypt(&mut self.transport, ciphertext, out_buf) {
            Ok(n) => {
                self.received = Ghost(self.received@.push(out_buf@.take(n as int)));
                Ok(n)
            },
            Err(e) => Err(HandshakeError::Snow(e)),
        }
    }
}

} // verus!
