//! Linux: `crosvm` with ARCVM as hypervisor (or a simulation where
//! `/dev/kvm` is missing), LUKS2 volumes through `cryptsetup`, and secrets
//! in owner-only files.
//!
//! The secret files are plain files with mode `0600` in a `0700`
//! directory: enough against other unprivileged users and careless
//! backups, nothing against root or direct disk access. Sealing them in a
//! TPM is the real protection.
use vstd::prelude::*;
use vstd::string::StringExecFns;
use std::path::PathBuf;
use crate::ext::fs_probe::path_exists;
use crate::orchestration::traits::{AndroidHypervisor, MountedVolume, PlatformError, PlatformResult, RunningInstance};
use crate::platform::command_line::{arg_texts, push_arg, push_number_arg};
use crate::text::decimal::decimal;

verus! {

/// Device node whose presence means hardware virtualisation is available.
pub const KVM_DEVICE: &'static str = "/dev/kvm";

/// Android runtime on `crosvm`.
pub struct CrosvmAndroidHypervisor {
    pub kernel_path: String,
    pub rootfs_path: String,
    pub socket_path: String,
    pub memory_mb: u32,
    pub cpus: u32,
    pub force_simulation: bool,
}

impl CrosvmAndroidHypervisor {
    pub fn new(kernel_path: &str, rootfs_path: &str, socket_path: &str, memory_mb: u32, cpus: u32, force_simulation: bool) -> (r:
        Self)
        ensures
            r.kernel_path@ == kernel_path@,
            r.rootfs_path@ == rootfs_path@,
            r.socket_path@ == socket_path@,
            r.memory_mb == memory_mb,
            r.cpus == cpus,
            r.force_simulation == force_simulation,
    {
        CrosvmAndroidHypervisor {
            kernel_path: String::from_str(kernel_path),
            rootfs_path: String::from_str(rootfs_path),
            socket_path: String::from_str(socket_path),
            memory_mb,
            cpus,
            force_simulation,
        }
    }

    /// Whether KVM hardware virtualisation is available on the host.
    pub fn is_kvm_available(&self) -> (r: bool) {
        path_exists(KVM_DEVICE)
    }

    /// Whether booting simulates the runtime: when forced, or when KVM is
    /// missing. Whether KVM is present is up to the host, so this is
    /// [`Self::should_simulate_given`] of what the host reports.
    pub fn should_simulate(&self) -> (r: bool)
        ensures
            self.force_simulation ==> r,
    {
        let kvm_available = self.is_kvm_available();
        self.should_simulate_given(kvm_available)
    }

    /// Whether booting simulates the runtime on a host where KVM is present
    /// or not, as `kvm_available` says: when forced, or when KVM is missing.
    pub fn should_simulate_given(&self, kvm_available: bool) -> (r: bool)
        ensures
            r == (self.force_simulation || !kvm_available),
    {
        self.force_simulation || !kvm_available
    }

    /// The arguments `crosvm` is launched with.
    pub fn crosvm_args(&self) -> (r: Vec<String>)
        ensures
            arg_texts(r@) == seq![
                "run"@,
                "--cpus"@,
                decimal(self.cpus as nat),
                "--mem"@,
                decimal(self.memory_mb as nat),
                "--root"@,
                self.rootfs_path@,
                "--socket"@,
                self.socket_path@,
                self.kernel_path@,
            ],
    {
        let mut args: Vec<String> = Vec::new();
        push_arg(&mut args, "run");
        push_arg(&mut args, "--cpus");
        push_number_arg(&mut args, self.cpus as u64);
        push_arg(&mut args, "--mem");
        push_number_arg(&mut args, self.memory_mb as u64);
        push_arg(&mut args, "--root");
        push_arg(&mut args, self.rootfs_path.as_str());
        push_arg(&mut args, "--socket");
        push_arg(&mut args, self.socket_path.as_str());
        push_arg(&mut args, self.kernel_path.as_str());
        assert(arg_texts(args@) =~= seq![
            "run"@,
            "--cpus"@,
            decimal(self.cpus as nat),
            "--mem"@,
            decimal(self.memory_mb as nat),
            "--root"@,
            self.rootfs_path@,
            "--socket"@,
            self.socket_path@,
            self.kernel_path@,
        ]);
        args
    }
}

/// A hypervisor for a platform where none is integrated yet: it refuses to
/// boot rather than pretend to.
pub struct NotImplementedHypervisor;

pub open spec fn not_implemented_boot_text() -> Seq<char> {
    "AndroidHypervisor todavía no está implementado en Linux — falta la integración real con crosvm+ARCVM (ver Fase 1 en ARCHITECTURE.md)"@
}

pub open spec fn not_implemented_stop_text() -> Seq<char> {
    "AndroidHypervisor todavía no está implementado en Linux"@
}

impl AndroidHypervisor for NotImplementedHypervisor {
    type Instance = ();

    fn boot(&self, volume: &MountedVolume) -> (r: PlatformResult<RunningInstance<()>>)
        ensures
            r matches Err(PlatformError::Other(m)) && m@ == not_implemented_boot_text(),
    {
        Err(
            PlatformError::Other(
                String::from_str(
                    "AndroidHypervisor todavía no está implementado en Linux — falta la integración real con crosvm+ARCVM (ver Fase 1 en ARCHITECTURE.md)",
                ),
            ),
        )
    }

    fn stop(&self, instance: RunningInstance<()>) -> (r: PlatformResult<()>)
        ensures
            r matches Err(PlatformError::Other(m)) && m@ == not_implemented_stop_text(),
    {
        Err(PlatformError::Other(String::from_str("AndroidHypervisor todavía no está implementado en Linux")))
    }
}

/// Secret store in owner-only files: the identity at one path, the pinned
/// frontend key (in hex) at another.
pub struct FileSecretStore {
    identity_path: PathBuf,
    pin_path: PathBuf,
}

impl FileSecretStore {
    pub closed spec fn spec_identity_path(&self) -> PathBuf {
        self.identity_path
    }

    pub closed spec fn spec_pin_path(&self) -> PathBuf {
        self.pin_path
    }

    pub fn new(identity_path: PathBuf, pin_path: PathBuf) -> (r: Self)
        ensures
            r.spec_identity_path() == identity_path,
            r.spec_pin_path() == pin_path,
    {
        FileSecretStore { identity_path, pin_path }
    }

    pub fn identity_path(&self) -> (r: &PathBuf)
        ensures
            *r == self.spec_identity_path(),
    {
        &self.identity_path
    }

    pub fn pin_path(&self) -> (r: &PathBuf)
        ensures
            *r == self.spec_pin_path(),
    {
        &self.pin_path
    }
}

/// The error for an identity file of the wrong length.
pub fn identity_length_error(len: usize) -> (r: PlatformError)
    ensures
        r matches PlatformError::Other(m) && m@ == "el archivo de identidad tiene un largo inválido: "@
            + decimal(len as nat) + " bytes (se esperaban "@ + decimal(64) + ")"@,
{
    let mut m = String::from_str("el archivo de identidad tiene un largo inválido: ");
    crate::text::decimal::push_decimal(&mut m, len as u64);
    m.append(" bytes (se esperaban ");
    crate::text::decimal::push_decimal(&mut m, 64);
    m.append(")");
    PlatformError::Other(m)
}

/// LUKS2 volume opened and closed with `cryptsetup`, the key always passed
/// on standard input, never in the arguments.
pub struct LuksEncryptedStorage {
    pub image_path: String,
    pub mapper_name: String,
}

impl LuksEncryptedStorage {
    pub fn new(image_path: &str, mapper_name: &str) -> (r: Self)
        ensures
            r.image_path@ == image_path@,
            r.mapper_name@ == mapper_name@,
    {
        LuksEncryptedStorage { image_path: String::from_str(image_path), mapper_name: String::from_str(mapper_name) }
    }

    /// The device the opened volume is mapped to.
    pub fn mapper_device_path(&self) -> (r: String)
        ensures
            r@ == "/dev/mapper/"@ + self.mapper_name@,
    {
        let mut path = String::from_str("/dev/mapper/");
        path.append(self.mapper_name.as_str());
        path
    }

    /// `cryptsetup` arguments that format a new LUKS2 volume, reading the
    /// key from standard input.
    pub fn format_args(&self) -> (r: Vec<String>)
        ensures
            arg_texts(r@) == seq![
                "luksFormat"@,
                "--type"@,
                "luks2"@,
                "--batch-mode"@,
                "--key-file"@,
                "-"@,
                self.image_path@,
            ],
    {
        let mut args: Vec<String> = Vec::new();
        push_arg(&mut args, "luksFormat");
        push_arg(&mut args, "--type");
        push_arg(&mut args, "luks2");
        push_arg(&mut args, "--batch-mode");
        push_arg(&mut args, "--key-file");
        push_arg(&mut args, "-");
        push_arg(&mut args, self.image_path.as_str());
        assert(arg_texts(args@) =~= seq![
            "luksFormat"@,
            "--type"@,
            "luks2"@,
            "--batch-mode"@,
            "--key-file"@,
            "-"@,
            self.image_path@,
        ]);
        args
    }

    /// `cryptsetup` arguments that open the volume under the mapper name,
    /// reading the key from standard input.
    pub fn open_args(&self) -> (r: Vec<String>)
        ensures
            arg_texts(r@) == seq![
                "open"@,
                "--type"@,
                "luks2"@,
                "--key-file"@,
                "-"@,
                self.image_path@,
                self.mapper_name@,
            ],
    {
        let mut args: Vec<String> = Vec::new();
        push_arg(&mut args, "open");
        push_arg(&mut args, "--type");
        push_arg(&mut args, "luks2");
        push_arg(&mut args, "--key-file");
        push_arg(&mut args, "-");
        push_arg(&mut args, self.image_path.as_str());
        push_arg(&mut args, self.mapper_name.as_str());
        assert(arg_texts(args@) =~= seq![
            "open"@,
            "--type"@,
            "luks2"@,
            "--key-file"@,
            "-"@,
            self.image_path@,
            self.mapper_name@,
        ]);
        args
    }

    /// The volume once opened: mounted at the mapped device, found again by
    /// the mapper name.
    pub fn opened_volume(&self) -> (r: MountedVolume)
        ensures
            r.mount_path@ == "/dev/mapper/"@ + self.mapper_name@,
            r.platform_handle@ == self.mapper_name@,
    {
        MountedVolume { mount_path: self.mapper_device_path(), platform_handle: self.mapper_name.clone() }
    }

    /// `cryptsetup` arguments that close `volume`.
    pub fn close_args(&self, volume: &MountedVolume) -> (r: Vec<String>)
        ensures
            arg_texts(r@) == seq!["close"@, volume.platform_handle@],
    {
        let mut args: Vec<String> = Vec::new();
        push_arg(&mut args, "close");
        push_arg(&mut args, volume.platform_handle.as_str());
        assert(arg_texts(args@) =~= seq!["close"@, volume.platform_handle@]);
        args
    }
}

} // verus!
