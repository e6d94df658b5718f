use std::path::PathBuf;
use vault::crypto::handshake::StaticKeypair;
use vault::orchestration::traits::{AndroidHypervisor, MountedVolume, PlatformError, RunningInstance};
use vault::platform::enrollment_page::{
    enroll_page_html, no_pending_enrollment_page, qr_code_svg, qr_host, qr_payload, PageFlavor,
};
use vault::platform::linux::{identity_length_error, CrosvmAndroidHypervisor, FileSecretStore, LuksEncryptedStorage};
use vault::platform::macos::{AppleKeychainSecretStore, AppleVirtualizationHypervisor, MacosEncryptedStorage};
use vault::platform::secret_files::{decode_identity, decode_pin, encode_identity, encode_pin, protect_data, unprotect_data};
use vault::platform::windows::{
    powershell_command_args, run_service, DpapiSecretStore, HyperVAndroidHypervisor, ServiceError,
    WindowsEncryptedStorage,
};

#[test]
fn test_crosvm_hypervisor_new() {
    let hypervisor = CrosvmAndroidHypervisor::new("kernel.bin", "rootfs.img", "crosvm.sock", 2048, 4, true);

    assert_eq!(hypervisor.kernel_path, "kernel.bin");
    assert_eq!(hypervisor.rootfs_path, "rootfs.img");
    assert_eq!(hypervisor.socket_path, "crosvm.sock");
    assert_eq!(hypervisor.memory_mb, 2048);
    assert_eq!(hypervisor.cpus, 4);
    assert!(hypervisor.force_simulation);
}

#[test]
fn test_apple_virtualization_new() {
    let hypervisor = AppleVirtualizationHypervisor::new("Android.bundle", "kernel.elf", 4096, true);

    assert_eq!(hypervisor.bundle_path, "Android.bundle");
    assert_eq!(hypervisor.kernel_path, "kernel.elf");
    assert_eq!(hypervisor.ram_mb, 4096);
    assert!(hypervisor.force_simulation);
}

#[test]
fn test_hyperv_hypervisor_new() {
    let hypervisor = HyperVAndroidHypervisor::new("ConfidentialVaultVM", "C:\\Vault\\secure.vhdx", true);

    assert_eq!(hypervisor.vm_name, "ConfidentialVaultVM");
    assert_eq!(hypervisor.vhdx_path, "C:\\Vault\\secure.vhdx");
    assert!(hypervisor.force_simulation);
}

#[test]
fn crosvm_is_launched_with_its_configuration() {
    let hypervisor = CrosvmAndroidHypervisor::new("kernel.bin", "rootfs.img", "crosvm.sock", 1024, 2, true);
    assert!(hypervisor.should_simulate());
    let _ = hypervisor.is_kvm_available();
    assert_eq!(
        hypervisor.crosvm_args(),
        vec!["run", "--cpus", "2", "--mem", "1024", "--root", "rootfs.img", "--socket", "crosvm.sock", "kernel.bin"]
    );
}

#[test]
fn not_implemented_hypervisors_refuse_to_boot() {
    let volume = MountedVolume { mount_path: "/dev/mapper/test_vault".to_string(), platform_handle: "test_vault".to_string() };
    let linux = vault::platform::linux::NotImplementedHypervisor;
    match linux.boot(&volume) {
        Err(PlatformError::Other(m)) => assert!(m.starts_with("AndroidHypervisor todavía no está implementado en Linux")),
        _ => panic!("expected a refusal"),
    }
    assert!(linux.stop(RunningInstance { platform_handle: () }).is_err());
    let mac = vault::platform::macos::NotImplementedHypervisor;
    assert!(matches!(mac.boot(&volume), Err(PlatformError::Other(m)) if m.contains("macOS")));
    let windows = vault::platform::windows::NotImplementedHypervisor;
    assert!(matches!(windows.stop(RunningInstance { platform_handle: () }), Err(PlatformError::Other(m)) if m == "AndroidHypervisor todavía no está implementado en Windows"));
}

#[test]
fn luks_commands_pass_the_key_on_stdin() {
    let storage = LuksEncryptedStorage::new("/var/lib/vault/image.luks", "vault");
    assert_eq!(storage.mapper_device_path(), "/dev/mapper/vault");
    assert_eq!(
        storage.format_args(),
        vec!["luksFormat", "--type", "luks2", "--batch-mode", "--key-file", "-", "/var/lib/vault/image.luks"]
    );
    assert_eq!(
        storage.open_args(),
        vec!["open", "--type", "luks2", "--key-file", "-", "/var/lib/vault/image.luks", "vault"]
    );
    let volume = storage.opened_volume();
    assert_eq!(volume.mount_path, "/dev/mapper/vault");
    assert_eq!(storage.close_args(&volume), vec!["close", "vault"]);
}

#[test]
fn hdiutil_commands() {
    let storage = MacosEncryptedStorage::new("/tmp/v.sparsebundle", "/Volumes/ConfidentialVaultTest");
    assert_eq!(
        storage.create_args(),
        vec!["create", "-size", "4g", "-fs", "APFS", "-volname", "ConfidentialVault", "-encryption", "AES-256", "-stdinpass", "/tmp/v.sparsebundle"]
    );
    assert_eq!(storage.attach_args(), vec!["attach", "-stdinpass", "-mountpoint", "/Volumes/ConfidentialVaultTest", "/tmp/v.sparsebundle"]);
    assert_eq!(storage.detach_args(), vec!["detach", "/Volumes/ConfidentialVaultTest", "-force"]);
    assert_eq!(MacosEncryptedStorage::password_input(&[0x01, 0xab]), "01ab\n");
    assert_eq!(storage.simulated_volume().mount_path, "/tmp/v.sparsebundle_mounted_dir");
    assert_eq!(storage.attached_volume().platform_handle, "/tmp/v.sparsebundle");
    let hypervisor = AppleVirtualizationHypervisor::new("Android.bundle", "kernel.elf", 2048, false);
    assert!(hypervisor.should_simulate(false));
    assert!(!hypervisor.should_simulate(true));
    assert_eq!(
        hypervisor.helper_args("/Users/vault/Mounted"),
        vec!["-p", "(allow default)", "vault-mac-helper", "--bundle", "Android.bundle", "--ram", "2048", "--mount", "/Users/vault/Mounted"]
    );
}

#[test]
fn bitlocker_and_hyperv_scripts() {
    let storage = WindowsEncryptedStorage::new("C:\\Vault\\secure.vhdx", "V:");
    assert_eq!(storage.create_script(), "New-VHD -Path 'C:\\Vault\\secure.vhdx' -SizeBytes 4096MB -Dynamic -Confirm:$false");
    assert_eq!(storage.mount_script(), "Mount-DiskImage -ImagePath 'C:\\Vault\\secure.vhdx' -StorageType VHDX");
    assert_eq!(
        storage.init_script(),
        "Get-DiskImage -ImagePath 'C:\\Vault\\secure.vhdx' | Get-Disk | Initialize-Disk -PartitionStyle GPT -PassThru | New-Partition -DriveLetter V -UseMaximumSize | Format-Volume -FileSystem NTFS -NewFileSystemLabel 'ConfidentialVault' -Confirm:$false"
    );
    assert_eq!(
        storage.bitlocker_script(&[0xde, 0xad]),
        "$secpasswd = ConvertTo-SecureString 'dead' -AsPlainText -Force; Enable-BitLocker -MountPoint 'V:' -EncryptionMethod XtsAes256 -PasswordProtector -Password $secpasswd -SkipHardwareTest"
    );
    assert_eq!(WindowsEncryptedStorage::dismount_script("C:\\x.vhdx"), "Dismount-DiskImage -ImagePath 'C:\\x.vhdx'");
    assert_eq!(storage.unlock_args(&[0x0f]), vec!["-unlock", "V:", "-Password", "0f"]);
    assert_eq!(storage.lock_args(), vec!["-lock", "V:"]);
    assert_eq!(storage.unlocked_volume().mount_path, "V:\\");
    assert_eq!(storage.simulated_volume().mount_path, "C:\\Vault\\secure.vhdx_mounted_dir");
    let hyperv = HyperVAndroidHypervisor::new("ConfidentialVaultVM", "C:\\Vault\\secure.vhdx", false);
    assert_eq!(hyperv.start_script(), "Start-VM -Name 'ConfidentialVaultVM'");
    assert_eq!(HyperVAndroidHypervisor::stop_script("X"), "Stop-VM -Name 'X' -Force");
    assert_eq!(powershell_command_args("Get-VM"), vec!["-Command", "Get-VM"]);
    assert!(hyperv.should_simulate(false));
    assert_eq!(run_service("ConfidentialVaultHost", || {}), Err(ServiceError::Unsupported));
    assert_eq!(ServiceError::Unsupported.message(), "Los servicios de Windows de fondo solo están soportados en sistemas Windows.");
}

#[test]
fn secret_stores_keep_their_paths() {
    let store = FileSecretStore::new(PathBuf::from("/var/lib/vault/id.key"), PathBuf::from("/var/lib/vault/pin.pub"));
    assert_eq!(store.identity_path(), &PathBuf::from("/var/lib/vault/id.key"));
    assert_eq!(store.pin_path(), &PathBuf::from("/var/lib/vault/pin.pub"));
    let dpapi = DpapiSecretStore::new(PathBuf::from("a"), PathBuf::from("b"));
    assert_eq!(dpapi.pin_path(), &PathBuf::from("b"));
    let keychain = AppleKeychainSecretStore::new(PathBuf::from("c"), PathBuf::from("d"));
    assert_eq!(keychain.backup_identity_path(), &PathBuf::from("c"));
}

#[test]
fn identity_file_roundtrips_and_rejects_other_lengths() {
    let kp = StaticKeypair { private: vec![1u8; 32], public: vec![2u8; 32] };
    let bytes = encode_identity(&kp);
    assert_eq!(bytes.len(), 64);
    let back = decode_identity(&bytes).unwrap();
    assert_eq!(back.private, kp.private);
    assert_eq!(back.public, kp.public);
    assert!(decode_identity(b"no son 64 bytes de clave").is_none());
    match identity_length_error(24) {
        PlatformError::Other(m) => assert_eq!(m, "el archivo de identidad tiene un largo inválido: 24 bytes (se esperaban 64)"),
        _ => panic!("expected Other"),
    }
}

#[test]
fn pin_roundtrips_through_hex() {
    let key = b"clave-publica-del-telefono".to_vec();
    let text = encode_pin(&key);
    assert_eq!(text, hex::encode(&key));
    assert_eq!(decode_pin(&text).unwrap(), key);
    assert_eq!(decode_pin(&format!("  {}\n", text)).unwrap(), key);
    assert_eq!(decode_pin("0A0b").unwrap(), vec![0x0a, 0x0b]);
    match decode_pin("abc") {
        Err(PlatformError::Other(m)) => assert!(m.starts_with("pin corrupto: ")),
        _ => panic!("expected a corrupt pin"),
    }
    assert!(decode_pin("zz").is_err());
}

#[test]
fn simulated_protection_masks_every_byte() {
    let data = b"secreto".to_vec();
    let protected = protect_data(&data).unwrap();
    assert_ne!(protected, data);
    assert_eq!(protected[0], b's' ^ 0xAA);
    assert_eq!(unprotect_data(&protected).unwrap(), data);
}

#[test]
fn enrollment_page_pieces() {
    assert_eq!(qr_host(Some("192.168.1.10:8088")), "192.168.1.10");
    assert_eq!(qr_host(Some("vault.local")), "vault.local");
    assert_eq!(qr_host(None), "<IP-DEL-VAULT>");
    let payload = qr_payload(1, "ab".to_string(), "h".to_string(), "t".to_string(), 5);
    assert_eq!(payload.port, 7443);
    let svg = qr_code_svg("hola");
    assert!(svg.contains("<svg"));
    let page = enroll_page_html(PageFlavor::Linux, "<svg/>", "{}");
    assert!(page.starts_with("<!doctype html>\n<html><head><meta charset=\"utf-8\"><title>Vincular Android Confidential Vault</title>"));
    assert!(page.contains("<h1>Vinculá tu teléfono</h1>\n"));
    assert!(page.ends_with("<pre>{}</pre></details>\n</body></html>"));
    let windows = enroll_page_html(PageFlavor::Windows, "<svg/>", "{}");
    assert!(windows.contains("<h1>Vinculá tu teléfono con Windows</h1>"));
    assert!(no_pending_enrollment_page(PageFlavor::Linux).contains("<h1>No hay enrolamiento pendiente</h1>"));
    assert!(no_pending_enrollment_page(PageFlavor::Windows).contains("<h1>No hay enrolamiento pendiente en Windows</h1>"));
}

#[test]
fn crosvm_simulates_when_forced_or_without_kvm() {
    let forced = CrosvmAndroidHypervisor::new("k", "r", "s", 512, 1, true);
    assert!(forced.should_simulate_given(true));
    assert!(forced.should_simulate_given(false));
    let native = CrosvmAndroidHypervisor::new("k", "r", "s", 512, 1, false);
    assert!(!native.should_simulate_given(true));
    assert!(native.should_simulate_given(false));
    assert_eq!(native.should_simulate(), !native.is_kvm_available());
}

#[test]
fn qr_is_drawn_whenever_the_data_fits() {
    let payload = "{\"v\":1,\"host\":\"192.168.1.10\",\"port\":7443,\"token\":\"0123456789abcdef0123456789abcdef\"}";
    let expected = qrcode::QrCode::new(payload.as_bytes())
        .unwrap()
        .render()
        .min_dimensions(280, 280)
        .dark_color(qrcode::render::svg::Color("#000000"))
        .light_color(qrcode::render::svg::Color("#ffffff"))
        .build();
    assert_eq!(qr_code_svg(payload), expected);
    let too_long = "x".repeat(8000);
    let refused = qr_code_svg(&too_long);
    assert!(refused.starts_with("<p>No se pudo generar el QR: "));
    assert!(refused.ends_with("</p>"));
}
