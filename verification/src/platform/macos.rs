//! macOS: Apple Virtualization.framework as hypervisor (through a helper
//! process, or a simulation where it is unavailable), AES-256 encrypted
//! sparse bundles driven by `hdiutil`, and secrets in the Keychain.
use vstd::prelude::*;
use vstd::string::StringExecFns;
use std::path::PathBuf;
use crate::ext::hex_codec::{hex_encode, hex_encoding};
use crate::orchestration::traits::{AndroidHypervisor, MountedVolume, PlatformError, PlatformResult, RunningInstance};
use crate::platform::command_line::{arg_texts, push_arg, push_number_arg};
use crate::text::decimal::decimal;

verus! {

/// Keychain service under which the secrets are stored.
pub const SERVICE_NAME: &'static str = "com.example.confidentialvault";
/// Keychain account of the runtime's identity.
pub const ACCOUNT_IDENTITY: &'static str = "identity_keypair";
/// Keychain account of the pinned frontend key.
pub const ACCOUNT_PINNED_KEY: &'static str = "pinned_frontend";

/// Android runtime on Apple Virtualization.framework.
pub struct AppleVirtualizationHypervisor {
    pub bundle_path: String,
    pub kernel_path: String,
    pub ram_mb: u64,
    pub force_simulation: bool,
}

impl AppleVirtualizationHypervisor {
    pub fn new(bundle_path: &str, kernel_path: &str, ram_mb: u64, force_simulation: bool) -> (r: Self)
        ensures
            r.bundle_path@ == bundle_path@,
            r.kernel_path@ == kernel_path@,
            r.ram_mb == ram_mb,
            r.force_simulation == force_simulation,
    {
        AppleVirtualizationHypervisor {
            bundle_path: String::from_str(bundle_path),
            kernel_path: String::from_str(kernel_path),
            ram_mb,
            force_simulation,
        }
    }

    /// Whether booting simulates the runtime: when forced, or when the
    /// framework is not available natively.
    pub fn should_simulate(&self, native_supported: bool) -> (r: bool)
        ensures
            r == (self.force_simulation || !native_supported),
    {
        self.force_simulation || !native_supported
    }

    /// The arguments of the sandboxed helper that boots the VM on the
    /// volume mounted at `mount_path`.
    pub fn helper_args(&self, mount_path: &str) -> (r: Vec<String>)
        ensures
            arg_texts(r@) == seq![
                "-p"@,
                "(allow default)"@,
                "vault-mac-helper"@,
                "--bundle"@,
                self.bundle_path@,
                "--ram"@,
                decimal(self.ram_mb as nat),
                "--mount"@,
                mount_path@,
            ],
    {
        let mut args: Vec<String> = Vec::new();
        push_arg(&mut args, "-p");
        push_arg(&mut args, "(allow default)");
        push_arg(&mut args, "vault-mac-helper");
        push_arg(&mut args, "--bundle");
        push_arg(&mut args, self.bundle_path.as_str());
        push_arg(&mut args, "--ram");
        push_number_arg(&mut args, self.ram_mb);
        push_arg(&mut args, "--mount");
        push_arg(&mut args, mount_path);
        assert(arg_texts(args@) =~= seq![
            "-p"@,
            "(allow default)"@,
            "vault-mac-helper"@,
            "--bundle"@,
            self.bundle_path@,
            "--ram"@,
            decimal(self.ram_mb as nat),
            "--mount"@,
            mount_path@,
        ]);
        args
    }
}

/// A hypervisor for a platform where none is integrated yet: it refuses to
/// boot rather than pretend to.
pub struct NotImplementedHypervisor;

pub open spec fn not_implemented_boot_text() -> Seq<char> {
    "AndroidHypervisor todavía no está implementado en macOS — falta la integración real con Apple Virtualization.framework para bootear el runtime (ver Fase D en ROADMAP_MULTIPLATFORM.md)"@
}

pub open spec fn not_implemented_stop_text() -> Seq<char> {
    "AndroidHypervisor todavía no está implementado en macOS"@
}

impl AndroidHypervisor for NotImplementedHypervisor {
    type Instance = ();

    fn boot(&self, volume: &MountedVolume) -> (r: PlatformResult<RunningInstance<()>>)
        ensures
            r matches Err(PlatformError::Other(m)) && m@ == not_implemented_boot_text(),
    {
        Err(
            PlatformError::Other(
                String::from_str(
                    "AndroidHypervisor todavía no está implementado en macOS — falta la integración real con Apple Virtualization.framework para bootear el runtime (ver Fase D en ROADMAP_MULTIPLATFORM.md)",
                ),
            ),
        )
    }

    fn stop(&self, instance: RunningInstance<()>) -> (r: PlatformResult<()>)
        ensures
            r matches Err(PlatformError::Other(m)) && m@ == not_implemented_stop_text(),
    {
        Err(PlatformError::Other(String::from_str("AndroidHypervisor todavía no está implementado en macOS")))
    }
}

/// Secret store in the Apple Keychain. The backup paths are only used
/// where there is no Keychain (development on other systems).
pub struct AppleKeychainSecretStore {
    backup_identity_path: PathBuf,
    backup_pin_path: PathBuf,
}

impl AppleKeychainSecretStore {
    pub closed spec fn spec_backup_identity_path(&self) -> PathBuf {
        self.backup_identity_path
    }

    pub closed spec fn spec_backup_pin_path(&self) -> PathBuf {
        self.backup_pin_path
    }

    pub fn new(backup_identity_path: PathBuf, backup_pin_path: PathBuf) -> (r: Self)
        ensures
            r.spec_backup_identity_path() == backup_identity_path,
            r.spec_backup_pin_path() == backup_pin_path,
    {
        AppleKeychainSecretStore { backup_identity_path, backup_pin_path }
    }

    pub fn backup_identity_path(&self) -> (r: &PathBuf)
        ensures
            *r == self.spec_backup_identity_path(),
    {
        &self.backup_identity_path
    }

    pub fn backup_pin_path(&self) -> (r: &PathBuf)
        ensures
            *r == self.spec_backup_pin_path(),
    {
        &self.backup_pin_path
    }
}

/// The error for a Keychain identity of the wrong length.
pub fn keychain_identity_length_error(len: usize) -> (r: PlatformError)
    ensures
        r matches PlatformError::Other(m) && m@ == "identidad del llavero de Apple tiene largo inválido: "@
            + decimal(len as nat) + " bytes (esperados "@ + decimal(64) + ")"@,
{
    let mut m = String::from_str("identidad del llavero de Apple tiene largo inválido: ");
    crate::text::decimal::push_decimal(&mut m, len as u64);
    m.append(" bytes (esperados ");
    crate::text::decimal::push_decimal(&mut m, 64);
    m.append(")");
    PlatformError::Other(m)
}

/// Encrypted APFS sparse bundle, created, attached and detached with
/// `hdiutil`; the password goes through standard input.
pub struct MacosEncryptedStorage {
    pub sparsebundle_path: String,
    pub mount_point: String,
}

impl MacosEncryptedStorage {
    pub fn new(sparsebundle_path: &str, mount_point: &str) -> (r: Self)
        ensures
            r.sparsebundle_path@ == sparsebundle_path@,
            r.mount_point@ == mount_point@,
    {
        MacosEncryptedStorage {
            sparsebundle_path: String::from_str(sparsebundle_path),
            mount_point: String::from_str(mount_point),
        }
    }

    /// `hdiutil` arguments that create the 4 GB encrypted APFS bundle.
    pub fn create_args(&self) -> (r: Vec<String>)
        ensures
            arg_texts(r@) == seq![
                "create"@,
                "-size"@,
                "4g"@,
                "-fs"@,
                "APFS"@,
                "-volname"@,
                "ConfidentialVault"@,
                "-encryption"@,
                "AES-256"@,
                "-stdinpass"@,
                self.sparsebundle_path@,
            ],
    {
        let mut args: Vec<String> = Vec::new();
        push_arg(&mut args, "create");
        push_arg(&mut args, "-size");
        push_arg(&mut args, "4g");
        push_arg(&mut args, "-fs");
        push_arg(&mut args, "APFS");
        push_arg(&mut args, "-volname");
        push_arg(&mut args, "ConfidentialVault");
        push_arg(&mut args, "-encryption");
        push_arg(&mut args, "AES-256");
        push_arg(&mut args, "-stdinpass");
        push_arg(&mut args, self.sparsebundle_path.as_str());
        assert(arg_texts(args@) =~= seq![
            "create"@,
            "-size"@,
            "4g"@,
            "-fs"@,
            "APFS"@,
            "-volname"@,
            "ConfidentialVault"@,
            "-encryption"@,
            "AES-256"@,
            "-stdinpass"@,
            self.sparsebundle_path@,
        ]);
        args
    }

    /// `hdiutil` arguments that attach the bundle at the mount point.
    pub fn attach_args(&self) -> (r: Vec<String>)
        ensures
            arg_texts(r@) == seq![
                "attach"@,
                "-stdinpass"@,
                "-mountpoint"@,
                self.mount_point@,
                self.sparsebundle_path@,
            ],
    {
        let mut args: Vec<String> = Vec::new();
        push_arg(&mut args, "attach");
        push_arg(&mut args, "-stdinpass");
        push_arg(&mut args, "-mountpoint");
        push_arg(&mut args, self.mount_point.as_str());
        push_arg(&mut args, self.sparsebundle_path.as_str());
        assert(arg_texts(args@) =~= seq![
            "attach"@,
            "-stdinpass"@,
            "-mountpoint"@,
            self.mount_point@,
            self.sparsebundle_path@,
        ]);
        args
    }

    /// `hdiutil` arguments that force the bundle detached.
    pub fn detach_args(&self) -> (r: Vec<String>)
        ensures
            arg_texts(r@) == seq!["detach"@, self.mount_point@, "-force"@],
    {
        let mut args: Vec<String> = Vec::new();
        push_arg(&mut args, "detach");
        push_arg(&mut args, self.mount_point.as_str());
        push_arg(&mut args, "-force");
        assert(arg_texts(args@) =~= seq!["detach"@, self.mount_point@, "-force"@]);
        args
    }

    /// What `hdiutil` reads as password: the key in hex and a newline.
    pub fn password_input(key: &[u8]) -> (r: String)
        ensures
            r@ == hex_encoding(key@) + "\n"@,
    {
        let mut s = hex_encode(key);
        s.append("\n");
        s
    }

    /// The volume once attached: at the mount point, found again by the
    /// bundle's path.
    pub fn attached_volume(&self) -> (r: MountedVolume)
        ensures
            r.mount_path@ == self.mount_point@,
            r.platform_handle@ == self.sparsebundle_path@,
    {
        MountedVolume { mount_path: self.mount_point.clone(), platform_handle: self.sparsebundle_path.clone() }
    }

    /// Where a simulated volume of the bundle at `bundle_path` is mounted.
    pub fn simulated_mount_dir(bundle_path: &str) -> (r: String)
        ensures
            r@ == bundle_path@ + "_mounted_dir"@,
    {
        let mut s = String::from_str(bundle_path);
        s.append("_mounted_dir");
        s
    }

    /// The volume a simulated attach yields.
    pub fn simulated_volume(&self) -> (r: MountedVolume)
        ensures
            r.mount_path@ == self.sparsebundle_path@ + "_mounted_dir"@,
            r.platform_handle@ == self.sparsebundle_path@,
    {
        MountedVolume {
            mount_path: Self::simulated_mount_dir(self.sparsebundle_path.as_str()),
            platform_handle: self.sparsebundle_path.clone(),
        }
    }
}

} // verus!
