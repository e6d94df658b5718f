//! Messages of the QR enrollment (pairing) flow.
//!
//! Trust model: trust on first use. The QR travels over a channel the owner
//! controls physically (the local network and their own screen); once the
//! keys are pinned no third party can impersonate either side.
use vstd::prelude::*;

verus! {

/// Version of the QR format, so it can evolve without breaking older apps.
pub const QR_PAYLOAD_VERSION: u8 = 1;

/// What the QR encodes, as plain JSON so it can be pasted by hand when
/// scanning is not possible.
#[derive(Debug, Clone)]
pub struct EnrollmentQrPayload {
    pub v: u8,
    /// The runtime's static X25519 public key, in hex.
    pub runtime_pubkey_hex: String,
    pub host: String,
    pub port: u16,
    pub token: String,
    pub expires_unix_ms: u64,
}

/// Body of `EnrollmentConfirm`: the token read from the QR.
#[derive(Debug, Clone)]
pub struct EnrollmentConfirmBody {
    pub token: String,
}

/// Body of `EnrollmentAck`: whether the enrollment completed, and why not.
#[derive(Debug, Clone)]
pub struct EnrollmentAckBody {
    pub success: bool,
    pub reason: Option<String>,
}

} // verus!
