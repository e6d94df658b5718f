use bytes::{BufMut, BytesMut};
use std::collections::BTreeMap;
use vault::protocol::framing::{Frame, FramingError, MsgType, HEADER_LEN, MAX_PAYLOAD_LEN};

/// CBOR of `{"n": n}`, the body the frames carry here.
fn ping(n: u32) -> Vec<u8> {
    let mut body = BTreeMap::new();
    body.insert("n".to_string(), n);
    serde_cbor::to_vec(&body).unwrap()
}

fn ping_value(payload: &[u8]) -> u32 {
    let body: BTreeMap<String, u32> = serde_cbor::from_slice(payload).unwrap();
    body["n"]
}

#[test]
fn roundtrip_encode_decode() {
    let frame = Frame { msg_type: MsgType::Heartbeat, req_id: 42, payload: ping(7) };
    let mut buf = BytesMut::new();
    frame.encode(&mut buf).unwrap();

    let decoded = Frame::try_decode(&mut buf).unwrap().unwrap();
    assert_eq!(decoded.req_id, 42);
    assert_eq!(decoded.msg_type, MsgType::Heartbeat);
    assert_eq!(ping_value(&decoded.payload), 7);
    assert!(buf.is_empty());
}

#[test]
fn incomplete_buffer_returns_none() {
    let frame = Frame { msg_type: MsgType::Heartbeat, req_id: 1, payload: ping(1) };
    let mut full = BytesMut::new();
    frame.encode(&mut full).unwrap();

    let mut partial = BytesMut::from(&full[..full.len() - 1]);
    assert!(Frame::try_decode(&mut partial).unwrap().is_none());
    assert_eq!(partial.len(), full.len() - 1);
}

#[test]
fn rejects_oversized_payload_len() {
    let mut buf = BytesMut::new();
    buf.put_u8(MsgType::Heartbeat.to_u8());
    buf.put_u64(1);
    buf.put_u32(MAX_PAYLOAD_LEN + 1);
    let err = Frame::try_decode(&mut buf).unwrap_err();
    assert!(matches!(err, FramingError::PayloadTooLarge(_)));
}

#[test]
fn encoding_is_big_endian_with_a_thirteen_byte_header() {
    let frame = Frame { msg_type: MsgType::ServiceResponse, req_id: 0x0102030405060708, payload: vec![0xAA, 0xBB] };
    let mut buf = BytesMut::new();
    frame.encode(&mut buf).unwrap();
    assert_eq!(&buf[..], &[0x11, 1, 2, 3, 4, 5, 6, 7, 8, 0, 0, 0, 2, 0xAA, 0xBB]);
    assert_eq!(buf.len(), HEADER_LEN + 2);
}

#[test]
fn decoding_consumes_one_frame_at_a_time() {
    let mut buf = BytesMut::new();
    Frame { msg_type: MsgType::VideoFrame, req_id: 1, payload: vec![1] }.encode(&mut buf).unwrap();
    Frame { msg_type: MsgType::InputEvent, req_id: 2, payload: vec![2, 2] }.encode(&mut buf).unwrap();
    let first = Frame::try_decode(&mut buf).unwrap().unwrap();
    assert_eq!((first.msg_type, first.req_id, first.payload), (MsgType::VideoFrame, 1, vec![1]));
    let second = Frame::try_decode(&mut buf).unwrap().unwrap();
    assert_eq!((second.msg_type, second.req_id, second.payload), (MsgType::InputEvent, 2, vec![2, 2]));
    assert!(Frame::try_decode(&mut buf).unwrap().is_none());
}

#[test]
fn unknown_type_byte_is_refused_and_nothing_consumed() {
    let mut buf = BytesMut::new();
    buf.put_u8(0x99);
    buf.put_u64(5);
    buf.put_u32(0);
    assert!(matches!(Frame::try_decode(&mut buf), Err(FramingError::Incomplete)));
    assert_eq!(buf.len(), HEADER_LEN);
}

#[test]
fn oversized_payload_is_not_encoded() {
    let frame = Frame { msg_type: MsgType::VideoFrame, req_id: 3, payload: vec![0u8; MAX_PAYLOAD_LEN as usize + 1] };
    let mut buf = BytesMut::new();
    buf.put_u8(7);
    assert!(matches!(frame.encode(&mut buf), Err(FramingError::PayloadTooLarge(n)) if n == MAX_PAYLOAD_LEN + 1));
    assert_eq!(&buf[..], &[7]);
}

#[test]
fn message_type_bytes_round_trip() {
    for v in 0u8..=255 {
        if let Some(t) = MsgType::from_u8(v) {
            assert_eq!(t.to_u8(), v);
        }
    }
    assert_eq!(MsgType::from_u8(0x40), Some(MsgType::EnrollmentConfirm));
    assert_eq!(MsgType::from_u8(0x42), None);
}
