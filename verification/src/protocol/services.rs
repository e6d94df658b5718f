//! Request and response types of the virtual services that the Android
//! frontend exposes and the vault consumes.
//!
//! Types whose fields are floating point (locations, cluster load, sensor
//! telemetry) are kept with the program that serialises them.
use vstd::prelude::*;

verus! {

#[derive(Debug, Clone, Copy, PartialEq, Eq, Structural)]
pub enum ServiceId {
    Location,
    Camera,
    Nfc,
    Biometrics,
    Clipboard,
    Notifications,
    Accelerometer,
    Admin,
    ClusterMigration,
    VmResourceHotPlug,
    CodecNegotiation,
    SensorVirtioPassthrough,
}

/// A service request: which service, on behalf of which Android package,
/// and the service-specific body (CBOR).
#[derive(Debug, Clone)]
pub struct ServiceRequestEnvelope {
    pub service: ServiceId,
    pub requesting_package: String,
    pub body: Vec<u8>,
}

#[derive(Debug, Clone)]
pub struct ServiceResponseEnvelope {
    pub service: ServiceId,
    pub result: ServiceResult,
}

#[derive(Debug, Clone)]
pub enum ServiceResult {
    /// The service-specific response body (CBOR).
    Success(Vec<u8>),
    PermissionDenied,
    Unavailable,
    Error(String),
}

#[derive(Debug, Clone)]
pub struct LocationRequest {
    /// Coarse or fine, mirroring the Android permission the app asked for.
    pub accuracy: LocationAccuracy,
}

#[derive(Debug, Clone, Copy, PartialEq, Eq, Structural)]
pub enum LocationAccuracy {
    Coarse,
    Fine,
}

/// Remote administration actions.
#[derive(Debug, Clone, Copy, PartialEq, Eq, Structural)]
pub enum AdminAction {
    RebootVault,
    GetLogs,
    ChangeNetwork,
    FactoryReset,
    UpdateRuntime,
}

#[derive(Debug, Clone, PartialEq, Eq)]
pub struct AdminRequestPayload {
    pub action: AdminAction,
    pub target_network: Option<String>,
    pub update_version: Option<String>,
}

#[derive(Debug, Clone, PartialEq, Eq)]
pub struct AdminResponsePayload {
    pub success: bool,
    pub message: String,
    pub logs: Vec<String>,
}

/// Kinds of node in the compute cluster.
#[derive(Debug, Clone, Copy, PartialEq, Eq, Structural)]
pub enum ClusterNodeType {
    HighPerfX86_64,
    AmpereArm64,
    EdgeMicroHost,
}

#[derive(Debug, Clone, PartialEq, Eq)]
pub struct LiveMigrationRequestPayload {
    pub session_id: String,
    pub source_node_id: String,
    pub target_node_id: String,
    pub preserve_framebuffer_state: bool,
}

#[derive(Debug, Clone, PartialEq, Eq)]
pub struct VmResourceHotPlugRequestPayload {
    /// Target number of virtual cores (2 to 16).
    pub target_vcpu_cores: u32,
    /// Target guest memory in GB (4 to 32).
    pub target_vram_gb: u32,
    /// The QMP/KVM command to run, when the caller provides one.
    pub qmp_command: Option<String>,
}

#[derive(Debug, Clone, PartialEq, Eq)]
pub struct VmResourceHotPlugResponsePayload {
    pub success: bool,
    pub active_vcpu_cores: u32,
    pub active_vram_gb: u32,
    pub message: String,
}

#[derive(Debug, Clone, Copy, PartialEq, Eq, Structural)]
pub enum VideoCodecType {
    Av1,
    HevcH265,
    Vp9ZeroLag,
    AvcH264,
}

#[derive(Debug, Clone, PartialEq, Eq)]
pub struct CodecNegotiationRequestPayload {
    pub supported_hardware_codecs: Vec<VideoCodecType>,
    pub preferred_codec: VideoCodecType,
    pub soc_model: String,
    pub mediacodec_ndk_acceleration: bool,
}

#[derive(Debug, Clone, PartialEq, Eq)]
pub struct CodecNegotiationResponsePayload {
    pub active_codec: VideoCodecType,
    pub is_hardware_accelerated: bool,
    pub decoder_mime: String,
    pub fallback_triggered: bool,
    pub reason: String,
}

} // verus!
