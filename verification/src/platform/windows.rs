//! Windows: Hyper-V as hypervisor (driven through PowerShell, or a
//! simulation where it is unavailable), BitLocker-encrypted VHDX volumes,
//! and secrets protected with DPAPI.
use vstd::prelude::*;
use vstd::string::StringExecFns;
use std::path::PathBuf;
use crate::ext::hex_codec::{hex_encode, hex_encoding};
use crate::orchestration::traits::{AndroidHypervisor, MountedVolume, PlatformError, PlatformResult, RunningInstance};
use crate::platform::command_line::{arg_texts, push_arg};
use crate::text::decimal::decimal;

verus! {

/// Android runtime in a Hyper-V virtual machine.
pub struct HyperVAndroidHypervisor {
    pub vm_name: String,
    pub vhdx_path: String,
    pub force_simulation: bool,
}

/// `s` between single quotes, as PowerShell literals are written.
pub open spec fn quoted(s: Seq<char>) -> Seq<char> {
    "'"@ + s + "'"@
}

fn push_quoted(out: &mut String, s: &str)
    ensures
        final(out)@ == old(out)@ + quoted(s@),
{
    out.append("'");
    out.append(s);
    out.append("'");
    assert(final(out)@ =~= old(out)@ + quoted(s@));
}

impl HyperVAndroidHypervisor {
    pub fn new(vm_name: &str, vhdx_path: &str, force_simulation: bool) -> (r: Self)
        ensures
            r.vm_name@ == vm_name@,
            r.vhdx_path@ == vhdx_path@,
            r.force_simulation == force_simulation,
    {
        HyperVAndroidHypervisor {
            vm_name: String::from_str(vm_name),
            vhdx_path: String::from_str(vhdx_path),
            force_simulation,
        }
    }

    /// Whether booting simulates the runtime: when forced, or when Hyper-V
    /// is not available.
    pub fn should_simulate(&self, hyperv_available: bool) -> (r: bool)
        ensures
            r == (self.force_simulation || !hyperv_available),
    {
        self.force_simulation || !hyperv_available
    }

    /// The PowerShell script that starts the VM.
    pub fn start_script(&self) -> (r: String)
        ensures
            r@ == "Start-VM -Name "@ + quoted(self.vm_name@),
    {
        let mut s = String::from_str("Start-VM -Name ");
        push_quoted(&mut s, self.vm_name.as_str());
        s
    }

    /// The PowerShell script that stops the VM `vm_name`.
    pub fn stop_script(vm_name: &str) -> (r: String)
        ensures
            r@ == "Stop-VM -Name "@ + quoted(vm_name@) + " -Force"@,
    {
        let mut s = String::from_str("Stop-VM -Name ");
        push_quoted(&mut s, vm_name);
        s.append(" -Force");
        s
    }
}

/// The arguments that run `script` with PowerShell.
pub fn powershell_command_args(script: &str) -> (r: Vec<String>)
    ensures
        arg_texts(r@) == seq!["-Command"@, script@],
{
    let mut args: Vec<String> = Vec::new();
    push_arg(&mut args, "-Command");
    push_arg(&mut args, script);
    assert(arg_texts(args@) =~= seq!["-Command"@, script@]);
    args
}

/// A hypervisor for a platform where none is integrated yet: it refuses to
/// boot rather than pretend to.
pub struct NotImplementedHypervisor;

pub open spec fn not_implemented_boot_text() -> Seq<char> {
    "AndroidHypervisor todavía no está implementado en Windows — falta la integración real con Hyper-V o crosvm para Windows (ver Fase C en ROADMAP_MULTIPLATFORM.md)"@
}

pub open spec fn not_implemented_stop_text() -> Seq<char> {
    "AndroidHypervisor todavía no está implementado en Windows"@
}

impl AndroidHypervisor for NotImplementedHypervisor {
    type Instance = ();

    fn boot(&self, volume: &MountedVolume) -> (r: PlatformResult<RunningInstance<()>>)
        ensures
            r matches Err(PlatformError::Other(m)) && m@ == not_implemented_boot_text(),
    {
        Err(
            PlatformError::Other(
                String::from_str(
                    "AndroidHypervisor todavía no está implementado en Windows — falta la integración real con Hyper-V o crosvm para Windows (ver Fase C en ROADMAP_MULTIPLATFORM.md)",
                ),
            ),
        )
    }

    fn stop(&self, instance: RunningInstance<()>) -> (r: PlatformResult<()>)
        ensures
            r matches Err(PlatformError::Other(m)) && m@ == not_implemented_stop_text(),
    {
        Err(PlatformError::Other(String::from_str("AndroidHypervisor todavía no está implementado en Windows")))
    }
}

/// Secret store in files protected with DPAPI: the identity at one path,
/// the pinned frontend key (in hex) at another.
pub struct DpapiSecretStore {
    identity_path: PathBuf,
    pin_path: PathBuf,
}

impl DpapiSecretStore {
    pub closed spec fn spec_identity_path(&self) -> PathBuf {
        self.identity_path
    }

    pub closed spec fn spec_pin_path(&self) -> PathBuf {
        self.pin_path
    }

    pub fn new(identity_path: PathBuf, pin_path: PathBuf) -> (r: Self)
        ensures
            r.spec_identity_path() == identity_path,
            r.spec_pin_path() == pin_path,
    {
        DpapiSecretStore { identity_path, pin_path }
    }

    pub fn identity_path(&self) -> (r: &PathBuf)
        ensures
            *r == self.spec_identity_path(),
    {
        &self.identity_path
    }

    pub fn pin_path(&self) -> (r: &PathBuf)
        ensures
            *r == self.spec_pin_path(),
    {
        &self.pin_path
    }
}

/// The error for a decrypted identity file of the wrong length.
pub fn decrypted_identity_length_error(len: usize) -> (r: PlatformError)
    ensures
        r matches PlatformError::Other(m) && m@
            == "el archivo de identidad descifrado tiene un largo inválido: "@ + decimal(len as nat)
            + " bytes (se esperaban "@ + decimal(64) + ")"@,
{
    let mut m = String::from_str("el archivo de identidad descifrado tiene un largo inválido: ");
    crate::text::decimal::push_decimal(&mut m, len as u64);
    m.append(" bytes (se esperaban ");
    crate::text::decimal::push_decimal(&mut m, 64);
    m.append(")");
    PlatformError::Other(m)
}

/// Why a service could not run.
#[derive(Debug, Clone, Copy, PartialEq, Eq, Structural)]
pub enum ServiceError {
    /// Background services exist only on Windows.
    Unsupported,
}

impl ServiceError {
    /// The human-readable text of the error.
    pub fn message(&self) -> (r: String)
        ensures
            r@ == "Los servicios de Windows de fondo solo están soportados en sistemas Windows."@,
    {
        String::from_str("Los servicios de Windows de fondo solo están soportados en sistemas Windows.")
    }
}

/// Runs `f` as the Windows service `service_name`. Background services
/// exist only on Windows, so anywhere else this is refused.
pub fn run_service<F: FnOnce() + Send + 'static>(service_name: &'static str, f: F) -> (r: Result<(), ServiceError>)
    ensures
        r == Err::<(), ServiceError>(ServiceError::Unsupported),
{
    Err(ServiceError::Unsupported)
}

/// Size of a new VHDX, in MB.
pub const VHDX_SIZE_MB: u64 = 4096;

/// A BitLocker-encrypted VHDX disk mounted at a drive letter.
pub struct WindowsEncryptedStorage {
    pub vhdx_path: String,
    pub drive_letter: String,
}

impl WindowsEncryptedStorage {
    pub fn new(vhdx_path: &str, drive_letter: &str) -> (r: Self)
        ensures
            r.vhdx_path@ == vhdx_path@,
            r.drive_letter@ == drive_letter@,
    {
        WindowsEncryptedStorage { vhdx_path: String::from_str(vhdx_path), drive_letter: String::from_str(drive_letter) }
    }

    /// Creates the dynamic VHDX.
    pub fn create_script(&self) -> (r: String)
        ensures
            r@ == "New-VHD -Path "@ + quoted(self.vhdx_path@) + " -SizeBytes "@ + decimal(
                VHDX_SIZE_MB as nat,
            ) + "MB -Dynamic -Confirm:$false"@,
    {
        let mut s = String::from_str("New-VHD -Path ");
        push_quoted(&mut s, self.vhdx_path.as_str());
        s.append(" -SizeBytes ");
        crate::text::decimal::push_decimal(&mut s, VHDX_SIZE_MB);
        s.append("MB -Dynamic -Confirm:$false");
        s
    }

    /// Attaches the VHDX.
    pub fn mount_script(&self) -> (r: String)
        ensures
            r@ == "Mount-DiskImage -ImagePath "@ + quoted(self.vhdx_path@) + " -StorageType VHDX"@,
    {
        let mut s = String::from_str("Mount-DiskImage -ImagePath ");
        push_quoted(&mut s, self.vhdx_path.as_str());
        s.append(" -StorageType VHDX");
        s
    }

    /// Initialises the attached disk and formats it as NTFS under the first
    /// character of the drive letter.
    pub fn init_script(&self) -> (r: String)
        requires
            self.drive_letter@.len() > 0,
        ensures
            r@ == "Get-DiskImage -ImagePath "@ + quoted(self.vhdx_path@)
                + " | Get-Disk | Initialize-Disk -PartitionStyle GPT -PassThru | New-Partition -DriveLetter "@
                + seq![self.drive_letter@[0]]
                + " -UseMaximumSize | Format-Volume -FileSystem NTFS -NewFileSystemLabel 'ConfidentialVault' -Confirm:$false"@,
    {
        let mut s = String::from_str("Get-DiskImage -ImagePath ");
        push_quoted(&mut s, self.vhdx_path.as_str());
        s.append(" | Get-Disk | Initialize-Disk -PartitionStyle GPT -PassThru | New-Partition -DriveLetter ");
        let letter = self.drive_letter.as_str().substring_char(0, 1);
        assert(letter@ =~= seq![self.drive_letter@[0]]);
        s.append(letter);
        s.append(" -UseMaximumSize | Format-Volume -FileSystem NTFS -NewFileSystemLabel 'ConfidentialVault' -Confirm:$false");
        s
    }

    /// Enables BitLocker on the new volume with the key, in hex, as password.
    pub fn bitlocker_script(&self, key: &[u8]) -> (r: String)
        ensures
            r@ == "$secpasswd = ConvertTo-SecureString "@ + quoted(hex_encoding(key@))
                + " -AsPlainText -Force; Enable-BitLocker -MountPoint "@ + quoted(self.drive_letter@)
                + " -EncryptionMethod XtsAes256 -PasswordProtector -Password $secpasswd -SkipHardwareTest"@,
    {
        let key_hex = hex_encode(key);
        let mut s = String::from_str("$secpasswd = ConvertTo-SecureString ");
        push_quoted(&mut s, key_hex.as_str());
        s.append(" -AsPlainText -Force; Enable-BitLocker -MountPoint ");
        push_quoted(&mut s, self.drive_letter.as_str());
        s.append(" -EncryptionMethod XtsAes256 -PasswordProtector -Password $secpasswd -SkipHardwareTest");
        s
    }

    /// Detaches the VHDX at `vhdx_path`.
    pub fn dismount_script(vhdx_path: &str) -> (r: String)
        ensures
            r@ == "Dismount-DiskImage -ImagePath "@ + quoted(vhdx_path@),
    {
        let mut s = String::from_str("Dismount-DiskImage -ImagePath ");
        push_quoted(&mut s, vhdx_path);
        s
    }

    /// `manage-bde.exe` arguments that unlock the volume with the key, in hex.
    pub fn unlock_args(&self, key: &[u8]) -> (r: Vec<String>)
        ensures
            arg_texts(r@) == seq!["-unlock"@, self.drive_letter@, "-Password"@, hex_encoding(key@)],
    {
        let key_hex = hex_encode(key);
        let mut args: Vec<String> = Vec::new();
        push_arg(&mut args, "-unlock");
        push_arg(&mut args, self.drive_letter.as_str());
        push_arg(&mut args, "-Password");
        push_arg(&mut args, key_hex.as_str());
        assert(arg_texts(args@) =~= seq!["-unlock"@, self.drive_letter@, "-Password"@, hex_encoding(key@)]);
        args
    }

    /// `manage-bde.exe` arguments that lock the volume.
    pub fn lock_args(&self) -> (r: Vec<String>)
        ensures
            arg_texts(r@) == seq!["-lock"@, self.drive_letter@],
    {
        let mut args: Vec<String> = Vec::new();
        push_arg(&mut args, "-lock");
        push_arg(&mut args, self.drive_letter.as_str());
        assert(arg_texts(args@) =~= seq!["-lock"@, self.drive_letter@]);
        args
    }

    /// The volume once unlocked: the root of the drive, found again by the
    /// VHDX path.
    pub fn unlocked_volume(&self) -> (r: MountedVolume)
        ensures
            r.mount_path@ == self.drive_letter@ + "\\"@,
            r.platform_handle@ == self.vhdx_path@,
    {
        let mut mount_path = self.drive_letter.clone();
        mount_path.append("\\");
        MountedVolume { mount_path, platform_handle: self.vhdx_path.clone() }
    }

    /// Where a simulated volume of the disk at `vhdx_path` is mounted.
    pub fn simulated_mount_dir(vhdx_path: &str) -> (r: String)
        ensures
            r@ == vhdx_path@ + "_mounted_dir"@,
    {
        let mut s = String::from_str(vhdx_path);
        s.append("_mounted_dir");
        s
    }

    /// The volume a simulated open yields.
    pub fn simulated_volume(&self) -> (r: MountedVolume)
        ensures
            r.mount_path@ == self.vhdx_path@ + "_mounted_dir"@,
            r.platform_handle@ == self.vhdx_path@,
    {
        MountedVolume {
            mount_path: Self::simulated_mount_dir(self.vhdx_path.as_str()),
            platform_handle: self.vhdx_path.clone(),
        }
    }
}

} // verus!
