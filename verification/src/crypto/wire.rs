//! Frames over the Noise transport, on any byte stream.
//!
//! On the underlying stream every Noise message (handshake or transport)
//! travels with a length prefix:
//! ```text
//! [u32 BE len][ ...len bytes of Noise message... ]
//! ```
//! The stream I/O is done by the caller; this module decides the lengths
//! and seals and opens frames.
use vstd::prelude::*;
use crate::crypto::handshake::{HandshakeError, TransportView, VaultTransport};
use crate::ext::byte_buf::{buf_as_slice, buf_contents, buf_from_slice, buf_len, buf_new};
use crate::ext::noise::{NOISE_MAX_MESSAGE_LEN, NOISE_TAG_LEN};
use crate::protocol::framing::{decode_front, lemma_decode_of_encode, DecodeOutcome, Frame, FramingError, MAX_PAYLOAD_LEN};

verus! {

/// Largest message accepted on the wire: the largest payload plus room for
/// the Noise overhead.
pub const MAX_WIRE_MESSAGE_LEN: u32 = 16778240;

#[derive(Debug)]
pub enum WireError {
    Io(std::io::Error),
    Handshake(HandshakeError),
    Framing(FramingError),
    /// A message longer than [`MAX_WIRE_MESSAGE_LEN`]; carries its length.
    MessageTooLarge(u32),
    /// The decrypted bytes do not hold a whole frame.
    IncompleteFrame,
}

/// The length prefix of an outgoing message of `len` bytes (the length as
/// a `u32`), or the refusal of a message too long for the wire.
pub fn outgoing_len_prefix(len: usize) -> (r: Result<u32, WireError>)
    ensures
        (len as u32) > MAX_WIRE_MESSAGE_LEN ==> (r matches Err(WireError::MessageTooLarge(n)) && n == len as u32),
        (len as u32) <= MAX_WIRE_MESSAGE_LEN ==> (r matches Ok(n) && n == len as u32),
{
    let n = len as u32;
    if n > MAX_WIRE_MESSAGE_LEN {
        return Err(WireError::MessageTooLarge(n));
    }
    Ok(n)
}

/// Checks the length prefix of an incoming message: the number of bytes to
/// read, or the refusal of a message too long for the wire.
pub fn incoming_len(prefix: u32) -> (r: Result<usize, WireError>)
    ensures
        prefix > MAX_WIRE_MESSAGE_LEN ==> (r matches Err(WireError::MessageTooLarge(n)) && n == prefix),
        prefix <= MAX_WIRE_MESSAGE_LEN ==> (r matches Ok(n) && n == prefix),
{
    if prefix > MAX_WIRE_MESSAGE_LEN {
        return Err(WireError::MessageTooLarge(prefix));
    }
    Ok(prefix as usize)
}

/// Encodes `frame` and encrypts it with the transport: the Noise message
/// to send, whose plaintext is exactly the frame's bytes. A payload over the
/// framing limit is refused by the framing, and only such a payload; any
/// other failure is the transport's own (a frame too large for one Noise
/// message, among others).
pub fn seal_frame(transport: &mut VaultTransport, frame: &Frame) -> (r: Result<Vec<u8>, WireError>)
    ensures
        frame.payload@.len() > MAX_PAYLOAD_LEN ==> (r matches Err(
            WireError::Framing(FramingError::PayloadTooLarge(n)),
        ) && n == frame.payload@.len() as u32),
        frame.payload@.len() <= MAX_PAYLOAD_LEN && frame.wire_bytes().len() + NOISE_TAG_LEN
            > NOISE_MAX_MESSAGE_LEN ==> r matches Err(WireError::Handshake(_)),
        r is Ok ==> r->Ok_0@.len() == frame.wire_bytes().len() + NOISE_TAG_LEN,
        r is Ok ==> final(transport)@ == (TransportView {
            sent: old(transport)@.sent.push(frame.wire_bytes()),
            ..old(transport)@
        }),
        r is Ok || r matches Err(WireError::Framing(_)) || r matches Err(WireError::Handshake(_)),
        r matches Err(WireError::Framing(_)) ==> frame.payload@.len() > MAX_PAYLOAD_LEN,
        r matches Err(WireError::Handshake(e)) ==> e is Snow,
        r is Err ==> final(transport)@ == old(transport)@,
{
    let mut plain = buf_new();
    match frame.encode(&mut plain) {
        Ok(()) => {},
        Err(e) => {
            return Err(WireError::Framing(e));
        },
    }
    assert(buf_contents(plain) =~= frame.wire_bytes());
    let plain_len = buf_len(&plain);
    let mut ct = vec![0u8; plain_len + NOISE_TAG_LEN];
    let ct_len = match transport.encrypt(buf_as_slice(&plain), ct.as_mut_slice()) {
        Ok(n) => n,
        Err(e) => {
            return Err(WireError::Handshake(e));
        },
    };
    ct.truncate(ct_len);
    Ok(ct)
}

/// Whether `r` is what decoding the plaintext `plain` gives: the frame at
/// its front, refused as incomplete when it holds no whole frame, and the
/// framing's error when its header is unacceptable.
pub open spec fn frame_outcome(plain: Seq<u8>, r: Result<Frame, WireError>) -> bool {
    match decode_front(plain) {
        DecodeOutcome::NeedMore => r matches Err(WireError::IncompleteFrame),
        DecodeOutcome::TooLarge(n) => r matches Err(WireError::Framing(FramingError::PayloadTooLarge(m))) && m == n,
        DecodeOutcome::UnknownType => r matches Err(WireError::Framing(FramingError::Incomplete)),
        DecodeOutcome::Decoded(t, id, p, _) => r matches Ok(f) && f.msg_type == t && f.req_id == id && f.payload@ == p,
    }
}

/// The frame at the front of a decrypted message: refused as incomplete
/// when the plaintext holds no whole frame, and with the framing's error
/// when its header is unacceptable.
pub fn frame_of_plaintext(plain: &[u8]) -> (r: Result<Frame, WireError>)
    ensures
        frame_outcome(plain@, r),
{
    let mut buf = buf_from_slice(plain);
    match Frame::try_decode(&mut buf) {
        Ok(Some(frame)) => Ok(frame),
        Ok(None) => Err(WireError::IncompleteFrame),
        Err(e) => Err(WireError::Framing(e)),
    }
}

/// Decrypts a Noise message with the transport and decodes the frame it
/// carries, as [`frame_of_plaintext`] does with the plaintext. A message
/// shorter than the tag or longer than a Noise message fails to decrypt.
pub fn open_frame(transport: &mut VaultTransport, ciphertext: &[u8]) -> (r: Result<Frame, WireError>)
    ensures
        ciphertext@.len() < NOISE_TAG_LEN || ciphertext@.len() > NOISE_MAX_MESSAGE_LEN ==> r matches Err(
            WireError::Handshake(_),
        ),
        r matches Err(WireError::Handshake(e)) ==> e is Snow && final(transport)@ == old(transport)@,
        !(r matches Err(WireError::Handshake(_))) ==> exists|plain: Seq<u8>|
            {
                &&& plain.len() + NOISE_TAG_LEN == ciphertext@.len()
                &&& final(transport)@ == (TransportView {
                    received: old(transport)@.received.push(plain),
                    ..old(transport)@
                })
                &&& #[trigger] frame_outcome(plain, r)
            },
{
    let mut pt = vec![0u8; ciphertext.len()];
    let pt_len = match transport.decrypt(ciphertext, pt.as_mut_slice()) {
        Ok(n) => n,
        Err(e) => {
            return Err(WireError::Handshake(e));
        },
    };
    pt.truncate(pt_len);
    frame_of_plaintext(pt.as_slice())
}

/// A sealed frame opens as itself: when the plaintext a transport received
/// is the one the peer's [`seal_frame`] sent (the frame's bytes), the frame
/// [`open_frame`] returns is the frame that was sealed.
pub proof fn lemma_sealed_frame_opens(frame: Frame, r: Result<Frame, WireError>)
    requires
        frame.payload@.len() <= MAX_PAYLOAD_LEN,
        frame_outcome(frame.wire_bytes(), r),
    ensures
        r matches Ok(f) && f.msg_type == frame.msg_type && f.req_id == frame.req_id && f.payload@
            == frame.payload@,
{
    lemma_decode_of_encode(frame.msg_type, frame.req_id, frame.payload@, Seq::empty());
    assert(frame.wire_bytes() + Seq::<u8>::empty() =~= frame.wire_bytes());
}

} // verus!
