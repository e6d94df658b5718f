//! Binary framing of messages carried inside the Noise-encrypted stream.
//!
//! Wire layout of one frame:
//! ```text
//! ┌──────────┬──────────┬──────────────┬──────────────────┐
//! │ msg_type │ req_id   │ payload_len  │ payload (CBOR)   │
//! │  u8      │  u64 BE  │  u32 BE      │  payload_len     │
//! └──────────┴──────────┴──────────────┴──────────────────┘
//! ```
//! The framing only delimits messages; confidentiality comes from the Noise
//! transport it travels in.
use vstd::prelude::*;
use bytes::BytesMut;
use crate::ext::byte_buf::{buf_contents, buf_max_len, buf_len, buf_as_slice, buf_reserve, buf_put_u8, buf_put_u32, buf_put_u64, buf_put_slice, buf_advance, buf_split_to};

verus! {

/// Size of the fixed header: type byte, request id, payload length.
pub const HEADER_LEN: usize = 13;
/// Defensive bound on a payload: 16 MiB.
pub const MAX_PAYLOAD_LEN: u32 = 16777216;

#[verifier::external_type_specification]
#[verifier::external_body]
pub struct ExCborError(serde_cbor::Error);

#[derive(Debug)]
pub enum FramingError {
    /// The payload is longer than [`MAX_PAYLOAD_LEN`]; carries the length.
    PayloadTooLarge(u32),
    /// The buffer does not hold a well-formed frame (unknown type byte).
    Incomplete,
    /// CBOR (de)serialisation of a frame body failed.
    Cbor(serde_cbor::Error),
}

#[derive(Debug, Clone, Copy, PartialEq, Eq, Structural)]
pub enum MsgType {
    HandshakeInit,
    HandshakeResp,
    ServiceRequest,
    ServiceResponse,
    VideoFrame,
    InputEvent,
    ApkInstallRequest,
    ApkInstallDecision,
    EnrollmentConfirm,
    EnrollmentAck,
    Heartbeat,
}

/// The wire byte of each message type.
pub open spec fn msg_type_byte(t: MsgType) -> u8 {
    match t {
        MsgType::HandshakeInit => 0x01,
        MsgType::HandshakeResp => 0x02,
        MsgType::ServiceRequest => 0x10,
        MsgType::ServiceResponse => 0x11,
        MsgType::VideoFrame => 0x20,
        MsgType::InputEvent => 0x21,
        MsgType::ApkInstallRequest => 0x30,
        MsgType::ApkInstallDecision => 0x31,
        MsgType::EnrollmentConfirm => 0x40,
        MsgType::EnrollmentAck => 0x41,
        MsgType::Heartbeat => 0xF0,
    }
}

/// The message type a wire byte denotes, if any.
pub open spec fn msg_type_of_byte(v: u8) -> Option<MsgType> {
    if v == 0x01 {
        Some(MsgType::HandshakeInit)
    } else if v == 0x02 {
        Some(MsgType::HandshakeResp)
    } else if v == 0x10 {
        Some(MsgType::ServiceRequest)
    } else if v == 0x11 {
        Some(MsgType::ServiceResponse)
    } else if v == 0x20 {
        Some(MsgType::VideoFrame)
    } else if v == 0x21 {
        Some(MsgType::InputEvent)
    } else if v == 0x30 {
        Some(MsgType::ApkInstallRequest)
    } else if v == 0x31 {
        Some(MsgType::ApkInstallDecision)
    } else if v == 0x40 {
        Some(MsgType::EnrollmentConfirm)
    } else if v == 0x41 {
        Some(MsgType::EnrollmentAck)
    } else if v == 0xF0 {
        Some(MsgType::Heartbeat)
    } else {
        None
    }
}

impl MsgType {
    /// The message type carried by wire byte `v`, or `None` for an unknown byte.
    pub fn from_u8(v: u8) -> (r: Option<MsgType>)
        ensures
            r == msg_type_of_byte(v),
    {
        match v {
            0x01 => Some(MsgType::HandshakeInit),
            0x02 => Some(MsgType::HandshakeResp),
            0x10 => Some(MsgType::ServiceRequest),
            0x11 => Some(MsgType::ServiceResponse),
            0x20 => Some(MsgType::VideoFrame),
            0x21 => Some(MsgType::InputEvent),
            0x30 => Some(MsgType::ApkInstallRequest),
            0x31 => Some(MsgType::ApkInstallDecision),
            0x40 => Some(MsgType::EnrollmentConfirm),
            0x41 => Some(MsgType::EnrollmentAck),
            0xF0 => Some(MsgType::Heartbeat),
            _ => None,
        }
    }

    /// The wire byte of this message type.
    pub fn to_u8(self) -> (r: u8)
        ensures
            r == msg_type_byte(self),
    {
        match self {
            MsgType::HandshakeInit => 0x01,
            MsgType::HandshakeResp => 0x02,
            MsgType::ServiceRequest => 0x10,
            MsgType::ServiceResponse => 0x11,
            MsgType::VideoFrame => 0x20,
            MsgType::InputEvent => 0x21,
            MsgType::ApkInstallRequest => 0x30,
            MsgType::ApkInstallDecision => 0x31,
            MsgType::EnrollmentConfirm => 0x40,
            MsgType::EnrollmentAck => 0x41,
            MsgType::Heartbeat => 0xF0,
        }
    }
}

/// Big-endian bytes of a `u32`.
pub open spec fn be_u32_bytes(x: u32) -> Seq<u8> {
    seq![
        ((x >> 24u32) & 0xff) as u8,
        ((x >> 16u32) & 0xff) as u8,
        ((x >> 8u32) & 0xff) as u8,
        (x & 0xff) as u8,
    ]
}

/// Big-endian bytes of a `u64`.
pub open spec fn be_u64_bytes(x: u64) -> Seq<u8> {
    seq![
        ((x >> 56u64) & 0xff) as u8,
        ((x >> 48u64) & 0xff) as u8,
        ((x >> 40u64) & 0xff) as u8,
        ((x >> 32u64) & 0xff) as u8,
        ((x >> 24u64) & 0xff) as u8,
        ((x >> 16u64) & 0xff) as u8,
        ((x >> 8u64) & 0xff) as u8,
        (x & 0xff) as u8,
    ]
}

/// The `u32` whose big-endian bytes are `s[at..at + 4]`.
pub open spec fn be_u32_at(s: Seq<u8>, at: int) -> u32 {
    (s[at] as u32) << 24u32 | (s[at + 1] as u32) << 16u32 | (s[at + 2] as u32) << 8u32 | (
    s[at + 3] as u32)
}

/// The `u64` whose big-endian bytes are `s[at..at + 8]`.
pub open spec fn be_u64_at(s: Seq<u8>, at: int) -> u64 {
    (s[at] as u64) << 56u64 | (s[at + 1] as u64) << 48u64 | (s[at + 2] as u64) << 40u64 | (s[at
        + 3] as u64) << 32u64 | (s[at + 4] as u64) << 24u64 | (s[at + 5] as u64) << 16u64 | (s[at
        + 6] as u64) << 8u64 | (s[at + 7] as u64)
}

/// The bytes that encode a frame with the given fields.
pub open spec fn frame_bytes(msg_type: MsgType, req_id: u64, payload: Seq<u8>) -> Seq<u8> {
    seq![msg_type_byte(msg_type)] + be_u64_bytes(req_id) + be_u32_bytes(payload.len() as u32)
        + payload
}

/// What decoding the front of a buffer yields.
pub enum DecodeOutcome {
    /// Not enough bytes yet for a whole frame; nothing is consumed.
    NeedMore,
    /// The header announces a payload longer than the maximum.
    TooLarge(u32),
    /// The header is complete but its type byte is unknown.
    UnknownType,
    /// A frame, and the number of bytes it took up.
    Decoded(MsgType, u64, Seq<u8>, int),
}

/// The payload length announced by a complete header.
pub open spec fn header_payload_len(s: Seq<u8>) -> u32 {
    be_u32_at(s, 9)
}

/// How the front of buffer `s` decodes.
pub open spec fn decode_front(s: Seq<u8>) -> DecodeOutcome {
    if s.len() < HEADER_LEN {
        DecodeOutcome::NeedMore
    } else if header_payload_len(s) > MAX_PAYLOAD_LEN {
        DecodeOutcome::TooLarge(header_payload_len(s))
    } else if s.len() < HEADER_LEN + header_payload_len(s) {
        DecodeOutcome::NeedMore
    } else {
        match msg_type_of_byte(s[0]) {
            None => DecodeOutcome::UnknownType,
            Some(t) => {
                let total = HEADER_LEN + header_payload_len(s);
                DecodeOutcome::Decoded(t, be_u64_at(s, 1), s.subrange(HEADER_LEN as int, total), total)
            },
        }
    }
}

/// The protocol's fixed table of wire bytes: handshake 0x01 and 0x02,
/// service request and response 0x10 and 0x11, video frame 0x20, input
/// event 0x21, APK install request and decision 0x30 and 0x31, enrollment
/// confirm and ack 0x40 and 0x41, heartbeat 0xF0. Every other byte denotes
/// no message type, and each listed byte denotes the type it is listed for.
pub proof fn lemma_wire_byte_table()
    ensures
        msg_type_byte(MsgType::HandshakeInit) == 0x01u8,
        msg_type_byte(MsgType::HandshakeResp) == 0x02u8,
        msg_type_byte(MsgType::ServiceRequest) == 0x10u8,
        msg_type_byte(MsgType::ServiceResponse) == 0x11u8,
        msg_type_byte(MsgType::VideoFrame) == 0x20u8,
        msg_type_byte(MsgType::InputEvent) == 0x21u8,
        msg_type_byte(MsgType::ApkInstallRequest) == 0x30u8,
        msg_type_byte(MsgType::ApkInstallDecision) == 0x31u8,
        msg_type_byte(MsgType::EnrollmentConfirm) == 0x40u8,
        msg_type_byte(MsgType::EnrollmentAck) == 0x41u8,
        msg_type_byte(MsgType::Heartbeat) == 0xF0u8,
        forall|v: u8| #[trigger] msg_type_of_byte(v) is Some ==> msg_type_byte(msg_type_of_byte(v)->Some_0) == v,
        forall|v: u8|
            #[trigger] msg_type_of_byte(v) is None <==> !(v == 0x01 || v == 0x02 || v == 0x10 || v == 0x11 || v
                == 0x20 || v == 0x21 || v == 0x30 || v == 0x31 || v == 0x40 || v == 0x41 || v == 0xF0),
{
}

/// Every message type reads back from its wire byte.
pub proof fn lemma_msg_type_byte_roundtrip(t: MsgType)
    ensures
        msg_type_of_byte(msg_type_byte(t)) == Some(t),
{
}

/// Four big-endian bytes of `x` read back as `x`.
pub proof fn lemma_be_u32_roundtrip(x: u32, s: Seq<u8>, at: int)
    requires
        0 <= at,
        at + 4 <= s.len(),
        s.subrange(at, at + 4) == be_u32_bytes(x),
    ensures
        be_u32_at(s, at) == x,
{
    assert(s[at] == be_u32_bytes(x)[0]);
    assert(s[at + 1] == be_u32_bytes(x)[1]);
    assert(s[at + 2] == be_u32_bytes(x)[2]);
    assert(s[at + 3] == be_u32_bytes(x)[3]);
    let b0 = s[at];
    let b1 = s[at + 1];
    let b2 = s[at + 2];
    let b3 = s[at + 3];
    assert(b0 == ((x >> 24u32) & 0xff) as u8 && b1 == ((x >> 16u32) & 0xff) as u8 && b2 == ((x
        >> 8u32) & 0xff) as u8 && b3 == (x & 0xff) as u8 ==> (b0 as u32) << 24u32 | (b1 as u32)
        << 16u32 | (b2 as u32) << 8u32 | (b3 as u32) == x) by (bit_vector);
}

/// Eight big-endian bytes of `x` read back as `x`.
pub proof fn lemma_be_u64_roundtrip(x: u64, s: Seq<u8>, at: int)
    requires
        0 <= at,
        at + 8 <= s.len(),
        s.subrange(at, at + 8) == be_u64_bytes(x),
    ensures
        be_u64_at(s, at) == x,
{
    let e = be_u64_bytes(x);
    assert(s[at] == e[0]);
    assert(s[at + 1] == e[1]);
    assert(s[at + 2] == e[2]);
    assert(s[at + 3] == e[3]);
    assert(s[at + 4] == e[4]);
    assert(s[at + 5] == e[5]);
    assert(s[at + 6] == e[6]);
    assert(s[at + 7] == e[7]);
    let b0 = s[at];
    let b1 = s[at + 1];
    let b2 = s[at + 2];
    let b3 = s[at + 3];
    let b4 = s[at + 4];
    let b5 = s[at + 5];
    let b6 = s[at + 6];
    let b7 = s[at + 7];
    assert(b0 == ((x >> 56u64) & 0xff) as u8 && b1 == ((x >> 48u64) & 0xff) as u8 && b2 == ((x
        >> 40u64) & 0xff) as u8 && b3 == ((x >> 32u64) & 0xff) as u8 && b4 == ((x >> 24u64)
        & 0xff) as u8 && b5 == ((x >> 16u64) & 0xff) as u8 && b6 == ((x >> 8u64) & 0xff) as u8
        && b7 == (x & 0xff) as u8 ==> (b0 as u64) << 56u64 | (b1 as u64) << 48u64 | (b2 as u64)
        << 40u64 | (b3 as u64) << 32u64 | (b4 as u64) << 24u64 | (b5 as u64) << 16u64 | (b6 as u64)
        << 8u64 | (b7 as u64) == x) by (bit_vector);
}

#[derive(Debug, Clone)]
pub struct Frame {
    pub msg_type: MsgType,
    pub req_id: u64,
    pub payload: Vec<u8>,
}

impl Frame {
    /// The bytes this frame encodes to.
    pub open spec fn wire_bytes(&self) -> Seq<u8> {
        frame_bytes(self.msg_type, self.req_id, self.payload@)
    }

    /// Appends the encoding of this frame to `out`. Fails, leaving `out` as
    /// it was, when the payload is longer than [`MAX_PAYLOAD_LEN`].
    pub fn encode(&self, out: &mut BytesMut) -> (r: Result<(), FramingError>)
        requires
            self.payload@.len() <= MAX_PAYLOAD_LEN ==> buf_contents(*old(out)).len() + HEADER_LEN
                + self.payload@.len() <= buf_max_len(),
        ensures
            self.payload@.len() > MAX_PAYLOAD_LEN <==> r is Err,
            r matches Err(e) ==> e matches FramingError::PayloadTooLarge(n) && n == self.payload@.len() as u32,
            r is Err ==> buf_contents(*final(out)) == buf_contents(*old(out)),
            r is Ok ==> buf_contents(*final(out)) == buf_contents(*old(out)) + self.wire_bytes(),
    {
        let len = self.payload.len();
        if len as u64 > MAX_PAYLOAD_LEN as u64 {
            return Err(FramingError::PayloadTooLarge(len as u32));
        }
        let ghost start = buf_contents(*out);
        buf_reserve(out, HEADER_LEN + len);
        buf_put_u8(out, self.msg_type.to_u8());
        buf_put_u64(out, self.req_id);
        buf_put_u32(out, len as u32);
        buf_put_slice(out, self.payload.as_slice());
        assert(buf_contents(*out) =~= start + self.wire_bytes());
        Ok(())
    }

    /// Tries to decode one frame from the front of `buf`. When the buffer
    /// holds a whole frame it is consumed and returned; when it holds only
    /// part of one, `Ok(None)` is returned and nothing is consumed.
    pub fn try_decode(buf: &mut BytesMut) -> (r: Result<Option<Frame>, FramingError>)
        ensures
            ({
                let s = buf_contents(*old(buf));
                match decode_front(s) {
                    DecodeOutcome::NeedMore => r matches Ok(None) && buf_contents(*final(buf)) == s,
                    DecodeOutcome::TooLarge(n) => r matches Err(FramingError::PayloadTooLarge(m))
                        && m == n && buf_contents(*final(buf)) == s,
                    DecodeOutcome::UnknownType => r matches Err(FramingError::Incomplete)
                        && buf_contents(*final(buf)) == s,
                    DecodeOutcome::Decoded(t, id, p, total) => r matches Ok(Some(f))
                        && f.msg_type == t && f.req_id == id && f.payload@ == p
                        && buf_contents(*final(buf)) == s.skip(total),
                }
            }),
    {
        let ghost s = buf_contents(*buf);
        let n = buf_len(buf);
        if n < HEADER_LEN {
            return Ok(None);
        }
        let bytes = buf_as_slice(buf);
        let msg_type_byte = bytes[0];
        let req_id: u64 = (bytes[1] as u64) << 56u64 | (bytes[2] as u64) << 48u64 | (bytes[3] as u64)
            << 40u64 | (bytes[4] as u64) << 32u64 | (bytes[5] as u64) << 24u64 | (bytes[6] as u64)
            << 16u64 | (bytes[7] as u64) << 8u64 | (bytes[8] as u64);
        let payload_len: u32 = (bytes[9] as u32) << 24u32 | (bytes[10] as u32) << 16u32 | (
        bytes[11] as u32) << 8u32 | (bytes[12] as u32);
        assert(payload_len == header_payload_len(s));
        assert(req_id == be_u64_at(s, 1));
        if payload_len > MAX_PAYLOAD_LEN {
            return Err(FramingError::PayloadTooLarge(payload_len));
        }
        let total_len = HEADER_LEN + payload_len as usize;
        if n < total_len {
            return Ok(None);
        }
        let msg_type = match MsgType::from_u8(msg_type_byte) {
            Some(t) => t,
            None => {
                return Err(FramingError::Incomplete);
            },
        };
        buf_advance(buf, HEADER_LEN);
        let body = buf_split_to(buf, payload_len as usize);
        let payload = vstd::slice::slice_to_vec(buf_as_slice(&body));
        assert(payload@ =~= s.subrange(HEADER_LEN as int, total_len as int));
        assert(buf_contents(*buf) =~= s.skip(total_len as int));
        Ok(Some(Frame { msg_type, req_id, payload }))
    }
}

/// Decoding the bytes of a frame, followed by anything, gives back that
/// frame and consumes exactly its bytes.
pub proof fn lemma_decode_of_encode(msg_type: MsgType, req_id: u64, payload: Seq<u8>, rest: Seq<u8>)
    requires
        payload.len() <= MAX_PAYLOAD_LEN,
    ensures
        decode_front(frame_bytes(msg_type, req_id, payload) + rest) == DecodeOutcome::Decoded(
            msg_type,
            req_id,
            payload,
            HEADER_LEN + payload.len(),
        ),
{
    let e = frame_bytes(msg_type, req_id, payload);
    let s = e + rest;
    let total = HEADER_LEN + payload.len();
    assert(s.subrange(1, 9) =~= be_u64_bytes(req_id));
    assert(s.subrange(9, 13) =~= be_u32_bytes(payload.len() as u32));
    lemma_be_u64_roundtrip(req_id, s, 1);
    lemma_be_u32_roundtrip(payload.len() as u32, s, 9);
    assert(header_payload_len(s) == payload.len());
    assert(s[0] == msg_type_byte(msg_type));
    lemma_msg_type_byte_roundtrip(msg_type);
    assert(s.subrange(HEADER_LEN as int, total) =~= payload);
}

/// A buffer holding only part of a frame's bytes decodes to "need more",
/// so nothing is consumed until the whole frame has arrived.
pub proof fn lemma_decode_of_partial_encode(msg_type: MsgType, req_id: u64, payload: Seq<u8>, n: int)
    requires
        payload.len() <= MAX_PAYLOAD_LEN,
        0 <= n < HEADER_LEN + payload.len(),
    ensures
        decode_front(frame_bytes(msg_type, req_id, payload).take(n)) == DecodeOutcome::NeedMore,
{
    let e = frame_bytes(msg_type, req_id, payload);
    let s = e.take(n);
    if n >= HEADER_LEN {
        assert(s.subrange(9, 13) =~= be_u32_bytes(payload.len() as u32));
        lemma_be_u32_roundtrip(payload.len() as u32, s, 9);
    }
}

} // verus!
