//! Decisions of a runtime session over the encrypted channel: the
//! enrollment exchange for a device that is not pinned yet, the check of a
//! pinned device, and what to do with each frame of an active session. The
//! caller runs the channel and carries the decisions out.
use vstd::prelude::*;
use crate::orchestration::enrollment::{constant_time_eq, enrollment_error_text_ok, EnrollmentError};
use crate::protocol::enrollment::EnrollmentAckBody;
use crate::protocol::framing::{Frame, MsgType};

verus! {

/// Whether an enrollment exchange may go on with `frame`: the first
/// message of an enrollment has to be `EnrollmentConfirm`.
pub fn is_enrollment_confirm(frame: &Frame) -> (r: bool)
    ensures
        r == (frame.msg_type == MsgType::EnrollmentConfirm),
{
    frame.msg_type == MsgType::EnrollmentConfirm
}

/// The `EnrollmentAck` answering a confirmation: success, or the reason it
/// was refused.
pub fn enrollment_ack(result: &Result<(), EnrollmentError>) -> (r: EnrollmentAckBody)
    ensures
        result is Ok ==> r.success && r.reason is None,
        result is Err ==> !r.success && r.reason is Some && enrollment_error_text_ok(
            result->Err_0,
            r.reason->Some_0@,
        ),
{
    match result {
        Ok(()) => EnrollmentAckBody { success: true, reason: None },
        Err(e) => EnrollmentAckBody { success: false, reason: Some(e.message()) },
    }
}

/// Whether a session whose peer presented `remote_pubkey` may proceed:
/// only the pinned key is accepted.
pub fn session_authorized(pinned: &Option<Vec<u8>>, remote_pubkey: &[u8]) -> (r: bool)
    ensures
        r == (pinned is Some && pinned->Some_0@ == remote_pubkey@),
{
    match pinned {
        Some(key) => constant_time_eq(key.as_slice(), remote_pubkey),
        None => false,
    }
}

/// What an active session does with an incoming frame.
#[derive(Debug)]
pub enum SessionAction {
    /// Decode the service request and dispatch it.
    DispatchService,
    /// Send this frame back.
    Reply(Frame),
    /// Nothing.
    Ignore,
}

/// Service requests are dispatched, heartbeats are answered with an empty
/// heartbeat of the same request id, anything else is ignored.
pub fn session_action(frame: &Frame) -> (r: SessionAction)
    ensures
        frame.msg_type == MsgType::ServiceRequest ==> r is DispatchService,
        frame.msg_type == MsgType::Heartbeat ==> (r matches SessionAction::Reply(f) && f.msg_type
            == MsgType::Heartbeat && f.req_id == frame.req_id && f.payload@.len() == 0),
        frame.msg_type != MsgType::ServiceRequest && frame.msg_type != MsgType::Heartbeat ==> r is Ignore,
{
    match frame.msg_type {
        MsgType::ServiceRequest => SessionAction::DispatchService,
        MsgType::Heartbeat => SessionAction::Reply(
            Frame { msg_type: MsgType::Heartbeat, req_id: frame.req_id, payload: Vec::new() },
        ),
        _ => SessionAction::Ignore,
    }
}

} // verus!
