//! Dynamic rotation of the session keys, gated by hardware attestation.
//!
//! A rotation is due once a volume of data has gone through the session
//! (1 GiB of framebuffer by default) or a time has passed (15 minutes by
//! default), and it is only carried out for a valid attestation of the
//! expected TEE enclave.
use vstd::prelude::*;
use std::time::{Duration, Instant};
use crate::ext::clock::{duration_nanos, instant_now, nanos_since};

verus! {

/// Default volume that makes a rotation due: 1 GiB.
pub const DEFAULT_REKEY_VOLUME_THRESHOLD_BYTES: u64 = 1073741824;
/// Default time that makes a rotation due: 15 minutes, in nanoseconds.
pub const DEFAULT_REKEY_TIME_THRESHOLD_NANOS: u128 = 900000000000;

#[derive(Debug, Clone, Copy, PartialEq, Eq, Structural)]
pub enum RekeyError {
    /// The TEE attestation did not verify.
    TeeAttestationFailed,
    /// No threshold was reached.
    ThresholdNotReached,
    /// Generating the keys failed.
    KeyGenerationFailed,
}

#[derive(Debug, Clone, Copy, PartialEq, Eq, Structural)]
pub enum TeeEnclaveType {
    ArmTrustZone,
    IntelSgx,
    AppleSecureEnclave,
    AndroidStrongBox,
}

/// A hardware attestation report.
#[derive(Debug, Clone)]
pub struct TeeAttestationReport {
    pub enclave_type: TeeEnclaveType,
    pub quote_hash: [u8; 32],
    pub is_valid: bool,
    pub timestamp_unix_secs: u64,
}

/// Manager of the session key rotation.
pub struct SessionRekeyManager {
    bytes_transferred: u64,
    volume_threshold_bytes: u64,
    time_threshold_nanos: u128,
    last_rekey_instant: Instant,
    rekey_count: u64,
    enclave_type: TeeEnclaveType,
}

/// The abstract manager: bytes since the last rotation, the two
/// thresholds, the rotations done, and the enclave it trusts.
pub struct RekeyView {
    pub bytes_transferred: u64,
    pub volume_threshold_bytes: u64,
    pub time_threshold_nanos: u128,
    pub rekey_count: u64,
    pub enclave_type: TeeEnclaveType,
}

/// Whether a rotation is due after `elapsed_nanos` since the last one.
pub open spec fn rekey_due(v: RekeyView, elapsed_nanos: u128) -> bool {
    v.bytes_transferred >= v.volume_threshold_bytes || elapsed_nanos >= v.time_threshold_nanos
}

/// Whether `report` attests the enclave `expected`.
pub open spec fn attestation_ok(expected: TeeEnclaveType, report: TeeAttestationReport) -> bool {
    report.is_valid && report.enclave_type == expected
}

/// The manager right after a rotation: nothing transferred since, and one
/// rotation more.
pub open spec fn rotated(v: RekeyView) -> RekeyView {
    RekeyView { bytes_transferred: 0, rekey_count: (v.rekey_count + 1) as u64, ..v }
}

/// The result of a rotation request with `report`, `elapsed_nanos` after the
/// last rotation, and the manager afterwards: refused for an attestation
/// that is not valid for the manager's enclave, refused while no threshold
/// is reached, and otherwise the next rotation number.
pub open spec fn rekey_outcome(v: RekeyView, report: TeeAttestationReport, elapsed_nanos: u128) -> (
    Result<u64, RekeyError>,
    RekeyView,
) {
    if !attestation_ok(v.enclave_type, report) {
        (Err(RekeyError::TeeAttestationFailed), v)
    } else if !rekey_due(v, elapsed_nanos) {
        (Err(RekeyError::ThresholdNotReached), v)
    } else {
        (Ok((v.rekey_count + 1) as u64), rotated(v))
    }
}

impl View for SessionRekeyManager {
    type V = RekeyView;

    closed spec fn view(&self) -> RekeyView {
        RekeyView {
            bytes_transferred: self.bytes_transferred,
            volume_threshold_bytes: self.volume_threshold_bytes,
            time_threshold_nanos: self.time_threshold_nanos,
            rekey_count: self.rekey_count,
            enclave_type: self.enclave_type,
        }
    }
}

impl SessionRekeyManager {
    /// A manager for `enclave_type` with the default thresholds.
    pub fn new(enclave_type: TeeEnclaveType) -> (r: Self)
        ensures
            r@ == (RekeyView {
                bytes_transferred: 0,
                volume_threshold_bytes: DEFAULT_REKEY_VOLUME_THRESHOLD_BYTES,
                time_threshold_nanos: DEFAULT_REKEY_TIME_THRESHOLD_NANOS,
                rekey_count: 0,
                enclave_type,
            }),
    {
        SessionRekeyManager {
            bytes_transferred: 0,
            volume_threshold_bytes: DEFAULT_REKEY_VOLUME_THRESHOLD_BYTES,
            time_threshold_nanos: DEFAULT_REKEY_TIME_THRESHOLD_NANOS,
            last_rekey_instant: instant_now(),
            rekey_count: 0,
            enclave_type,
        }
    }

    /// A manager for `enclave_type` with the given volume and time
    /// thresholds. The time threshold is kept as the duration's whole
    /// nanoseconds, which [`Self::with_threshold_nanos`] takes directly.
    pub fn with_thresholds(enclave_type: TeeEnclaveType, volume_bytes: u64, time_duration: Duration) -> (r:
        Self)
        ensures
            r@.bytes_transferred == 0,
            r@.volume_threshold_bytes == volume_bytes,
            r@.rekey_count == 0,
            r@.enclave_type == enclave_type,
    {
        Self::with_threshold_nanos(enclave_type, volume_bytes, duration_nanos(time_duration))
    }

    /// A manager for `enclave_type` that rotates after `volume_bytes`
    /// transferred or `time_nanos` elapsed.
    pub fn with_threshold_nanos(enclave_type: TeeEnclaveType, volume_bytes: u64, time_nanos: u128) -> (r: Self)
        ensures
            r@ == (RekeyView {
                bytes_transferred: 0,
                volume_threshold_bytes: volume_bytes,
                time_threshold_nanos: time_nanos,
                rekey_count: 0,
                enclave_type,
            }),
    {
        SessionRekeyManager {
            bytes_transferred: 0,
            volume_threshold_bytes: volume_bytes,
            time_threshold_nanos: time_nanos,
            last_rekey_instant: instant_now(),
            rekey_count: 0,
            enclave_type,
        }
    }

    /// Counts `bytes` more transferred (framebuffer frames, events),
    /// saturating at `u64::MAX`.
    pub fn record_bytes(&mut self, bytes: u64)
        ensures
            final(self)@ == (RekeyView {
                bytes_transferred: if old(self)@.bytes_transferred + bytes > u64::MAX {
                    u64::MAX
                } else {
                    (old(self)@.bytes_transferred + bytes) as u64
                },
                ..old(self)@
            }),
    {
        self.bytes_transferred = self.bytes_transferred.saturating_add(bytes);
    }

    /// Whether a rotation is due, by volume or by the time elapsed since the
    /// last one. The clock decides the time part; by volume it is always
    /// stated.
    pub fn should_rekey(&self) -> (r: bool)
        ensures
            self@.bytes_transferred >= self@.volume_threshold_bytes ==> r,
            exists|elapsed: u128| r == rekey_due(self@, elapsed),
    {
        let elapsed = nanos_since(&self.last_rekey_instant);
        self.should_rekey_after(elapsed)
    }

    /// Whether a rotation is due when `elapsed_nanos` have passed since the
    /// last one.
    pub fn should_rekey_after(&self, elapsed_nanos: u128) -> (r: bool)
        ensures
            r == rekey_due(self@, elapsed_nanos),
    {
        self.bytes_transferred >= self.volume_threshold_bytes || elapsed_nanos
            >= self.time_threshold_nanos
    }

    /// Whether `report` is a valid attestation of this manager's enclave.
    pub fn verify_tee_attestation(&self, report: &TeeAttestationReport) -> (r: bool)
        ensures
            r == attestation_ok(self@.enclave_type, *report),
    {
        report.is_valid && report.enclave_type == self.enclave_type
    }

    /// Rotates the keys when a rotation is due and the attestation is valid:
    /// the volume count and the clock restart, and the new rotation number
    /// is returned. An invalid attestation is refused first; then, while no
    /// threshold has been reached, the rotation is refused with
    /// [`RekeyError::ThresholdNotReached`]. A refusal changes nothing. The
    /// clock decides the time part; by volume the outcome is always stated.
    pub fn perform_rekey(&mut self, attestation: &TeeAttestationReport) -> (r: Result<u64, RekeyError>)
        requires
            old(self)@.rekey_count < u64::MAX,
        ensures
            exists|elapsed: u128| #[trigger] rekey_outcome(old(self)@, *attestation, elapsed) == (r, final(self)@),
            !attestation_ok(old(self)@.enclave_type, *attestation) ==> r == Err::<u64, RekeyError>(
                RekeyError::TeeAttestationFailed,
            ) && final(self)@ == old(self)@,
            attestation_ok(old(self)@.enclave_type, *attestation) && old(self)@.bytes_transferred
                >= old(self)@.volume_threshold_bytes ==> r == Ok::<u64, RekeyError>(
                (old(self)@.rekey_count + 1) as u64,
            ) && final(self)@ == rotated(old(self)@),
    {
        let elapsed = nanos_since(&self.last_rekey_instant);
        self.perform_rekey_after(attestation, elapsed)
    }

    /// [`Self::perform_rekey`] when `elapsed_nanos` have passed since the last
    /// rotation.
    pub fn perform_rekey_after(&mut self, attestation: &TeeAttestationReport, elapsed_nanos: u128) -> (r: Result<
        u64,
        RekeyError,
    >)
        requires
            old(self)@.rekey_count < u64::MAX,
        ensures
            (r, final(self)@) == rekey_outcome(old(self)@, *attestation, elapsed_nanos),
    {
        if !self.verify_tee_attestation(attestation) {
            return Err(RekeyError::TeeAttestationFailed);
        }
        if !self.should_rekey_after(elapsed_nanos) {
            return Err(RekeyError::ThresholdNotReached);
        }
        self.bytes_transferred = 0;
        self.last_rekey_instant = instant_now();
        self.rekey_count = self.rekey_count + 1;
        Ok(self.rekey_count)
    }

    pub fn bytes_transferred(&self) -> (r: u64)
        ensures
            r == self@.bytes_transferred,
    {
        self.bytes_transferred
    }

    pub fn rekey_count(&self) -> (r: u64)
        ensures
            r == self@.rekey_count,
    {
        self.rekey_count
    }
}

/// Right after a rotation nothing is due by volume: the count restarted,
/// so only a positive volume threshold or the clock can make the next one
/// due.
pub proof fn lemma_rekey_resets_volume(v: RekeyView, elapsed_nanos: u128)
    requires
        v.volume_threshold_bytes > 0,
        elapsed_nanos < v.time_threshold_nanos,
    ensures
        !rekey_due(RekeyView { bytes_transferred: 0, ..v }, elapsed_nanos),
{
}

} // verus!
