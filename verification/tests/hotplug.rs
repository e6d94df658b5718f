use vault::orchestration::hotplug::{HotPlugError, VmResourceController};
use vault::protocol::services::VmResourceHotPlugRequestPayload;

#[test]
fn test_valid_hotplug_execution() {
    let mut ctrl = VmResourceController::new(4, 8);
    assert_eq!(ctrl.current_vcpu(), 4);
    assert_eq!(ctrl.current_vram_gb(), 8);

    let req = VmResourceHotPlugRequestPayload { target_vcpu_cores: 12, target_vram_gb: 24, qmp_command: None };

    let resp = ctrl.apply_hotplug(&req).unwrap();
    assert!(resp.success);
    assert_eq!(resp.active_vcpu_cores, 12);
    assert_eq!(resp.active_vram_gb, 24);
    assert_eq!(ctrl.current_vcpu(), 12);
    assert_eq!(ctrl.current_vram_gb(), 24);
}

#[test]
fn test_out_of_range_hotplug_fails() {
    let mut ctrl = VmResourceController::new(4, 8);

    let req_invalid_vcpu = VmResourceHotPlugRequestPayload { target_vcpu_cores: 32, target_vram_gb: 16, qmp_command: None };
    assert_eq!(ctrl.apply_hotplug(&req_invalid_vcpu).unwrap_err(), HotPlugError::InvalidVcpuRange);

    let req_invalid_vram = VmResourceHotPlugRequestPayload { target_vcpu_cores: 8, target_vram_gb: 64, qmp_command: None };
    assert_eq!(ctrl.apply_hotplug(&req_invalid_vram).unwrap_err(), HotPlugError::InvalidVramRange);
}

#[test]
fn hotplug_message_names_the_default_qmp_command() {
    let mut ctrl = VmResourceController::new(4, 8);
    let req = VmResourceHotPlugRequestPayload { target_vcpu_cores: 12, target_vram_gb: 24, qmp_command: None };
    let resp = ctrl.apply_hotplug(&req).unwrap();
    assert_eq!(
        resp.message,
        "Hot-Plug aplicado exitosamente: 12 vCPUs y 24 GB vRAM vía QMP [{\"execute\": \"qmp_hotplug_resources\", \"arguments\": {\"vcpu\": 12, \"vram_gb\": 24}}]"
    );
}

#[test]
fn hotplug_message_uses_the_requested_qmp_command() {
    let mut ctrl = VmResourceController::default();
    let req = VmResourceHotPlugRequestPayload {
        target_vcpu_cores: 2,
        target_vram_gb: 32,
        qmp_command: Some("device_add pc-dimm".to_string()),
    };
    let resp = ctrl.apply_hotplug(&req).unwrap();
    assert_eq!(resp.message, "Hot-Plug aplicado exitosamente: 2 vCPUs y 32 GB vRAM vía QMP [device_add pc-dimm]");
}

#[test]
fn initial_resources_are_clamped_into_range() {
    let low = VmResourceController::new(0, 1);
    assert_eq!((low.current_vcpu(), low.current_vram_gb()), (2, 4));
    let high = VmResourceController::new(99, 99);
    assert_eq!((high.current_vcpu(), high.current_vram_gb()), (16, 32));
    let default = VmResourceController::default();
    assert_eq!((default.current_vcpu(), default.current_vram_gb()), (2, 4));
}

#[test]
fn refused_hotplug_changes_nothing() {
    let mut ctrl = VmResourceController::new(6, 10);
    let both_bad = VmResourceHotPlugRequestPayload { target_vcpu_cores: 1, target_vram_gb: 3, qmp_command: None };
    assert_eq!(ctrl.apply_hotplug(&both_bad).unwrap_err(), HotPlugError::InvalidVcpuRange);
    let vram_bad = VmResourceHotPlugRequestPayload { target_vcpu_cores: 16, target_vram_gb: 33, qmp_command: None };
    assert_eq!(ctrl.apply_hotplug(&vram_bad).unwrap_err(), HotPlugError::InvalidVramRange);
    assert_eq!((ctrl.current_vcpu(), ctrl.current_vram_gb()), (6, 10));
    assert_eq!(HotPlugError::InvalidVcpuRange.message(), "vCPU fuera del rango permitido [2..16]");
    assert_eq!(HotPlugError::InvalidVramRange.message(), "vRAM fuera del rango permitido [4..32] GB");
    assert_eq!(HotPlugError::QmpExecutionFailed.message(), "fallo al ejecutar comando QMP/KVM");
}
