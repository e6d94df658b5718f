//! The extension points that separate the platform-independent logic from
//! how each operating system provides it: an encrypted volume, an isolated
//! Android runtime, and a store for the long-lived secrets.
//!
//! The traits are synchronous on purpose: what they stand for (formatting a
//! volume, reading a secret file, booting a VM) blocks at the OS level anyway.
use vstd::prelude::*;
use vstd::std_specs::convert::FromSpecImpl;
use crate::crypto::handshake::StaticKeypair;

verus! {

#[verifier::external_type_specification]
#[verifier::external_body]
pub struct ExIoError(std::io::Error);

/// Failure of a platform operation.
#[derive(Debug)]
pub enum PlatformError {
    /// An I/O error from the operating system.
    Io(std::io::Error),
    /// Any other failure, described in words.
    Other(String),
}

pub type PlatformResult<T> = Result<T, PlatformError>;

impl From<std::io::Error> for PlatformError {
    fn from(e: std::io::Error) -> (r: PlatformError) {
        PlatformError::Io(e)
    }
}

impl FromSpecImpl<std::io::Error> for PlatformError {
    open spec fn obeys_from_spec() -> bool {
        true
    }

    open spec fn from_spec(e: std::io::Error) -> PlatformError {
        PlatformError::Io(e)
    }
}

/// An open encrypted volume. What a platform needs to find the volume again
/// when closing it (a mapped device name, a disk image path) travels in
/// `platform_handle`; only that platform reads it back.
pub struct MountedVolume {
    pub mount_path: String,
    pub platform_handle: String,
}

/// Opens, closes and formats the encrypted volume that holds the Android
/// runtime's filesystem.
pub trait EncryptedStorage: Send + Sync {
    fn format_new(&self, key: &[u8]) -> PlatformResult<()>;

    fn open(&self, key: &[u8]) -> PlatformResult<MountedVolume>;

    fn close(&self, volume: MountedVolume) -> PlatformResult<()>;
}

/// Boots and stops the isolated Android runtime. Each platform tracks a
/// running runtime with its own kind of handle, `Instance`.
pub trait AndroidHypervisor: Send + Sync {
    type Instance;

    fn boot(&self, volume: &MountedVolume) -> PlatformResult<RunningInstance<Self::Instance>>;

    fn stop(&self, instance: RunningInstance<Self::Instance>) -> PlatformResult<()>;
}

/// A running Android runtime, as its platform tracks it.
pub struct RunningInstance<H> {
    pub platform_handle: H,
}

/// Where the runtime's static identity and the pinned frontend key live.
pub trait SecretStore: Send + Sync {
    /// Loads the persisted identity, or generates and persists a new one the
    /// first time the runtime starts on this machine.
    fn load_or_generate_identity(&self) -> PlatformResult<StaticKeypair>;

    /// `None` while no enrollment has completed.
    fn load_pinned_frontend_key(&self) -> PlatformResult<Option<Vec<u8>>>;

    fn persist_pinned_frontend_key(&self, key: &[u8]) -> PlatformResult<()>;
}

} // verus!
