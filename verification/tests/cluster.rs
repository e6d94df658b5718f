use vault::orchestration::cluster::{ClusterError, ClusterOrchestrator};
use vault::protocol::services::{ClusterNodeType, LiveMigrationRequestPayload};

#[test]
fn test_cluster_live_migration() {
    let mut orch = ClusterOrchestrator::new("Node-Alpha (x86_64 High-Perf)", "session_001");
    assert_eq!(orch.active_node_id(), "Node-Alpha (x86_64 High-Perf)");

    let req = LiveMigrationRequestPayload {
        session_id: "session_001".to_string(),
        source_node_id: "Node-Alpha (x86_64 High-Perf)".to_string(),
        target_node_id: "Node-Beta (ARM64 Ampere)".to_string(),
        preserve_framebuffer_state: true,
    };

    let resp = orch.live_migrate(&req).unwrap();
    assert!(resp.success);
    assert_eq!(resp.active_node_id, "Node-Beta (ARM64 Ampere)");
    assert!((resp.downtime_tenths_ms as f32) / 10.0 < 2.0);
    assert_eq!(orch.active_node_id(), "Node-Beta (ARM64 Ampere)");
}

#[test]
fn migration_updates_the_inventory() {
    let mut orch = ClusterOrchestrator::new("Node-Alpha (x86_64 High-Perf)", "s");
    let before = orch.list_nodes();
    assert_eq!(before.len(), 3);
    assert!(before[0].is_active && !before[1].is_active && !before[2].is_active);
    assert_eq!(before[2].node_type, ClusterNodeType::EdgeMicroHost);
    assert_eq!(before[2].load_tenths_percent, 450);

    let req = LiveMigrationRequestPayload {
        session_id: "s".to_string(),
        source_node_id: "Node-Alpha (x86_64 High-Perf)".to_string(),
        target_node_id: "Node-Gamma (Edge Micro-Host)".to_string(),
        preserve_framebuffer_state: false,
    };
    let resp = orch.live_migrate(&req).unwrap();
    assert_eq!(resp.status_message, "Live migration completada exitosamente a Node-Gamma (Edge Micro-Host) (Downtime: 1.4ms)");
    assert_eq!(resp.transferred_dirty_pages_tenths_mb, 8192);
    let after = orch.list_nodes();
    assert!(!after[0].is_active && !after[1].is_active && after[2].is_active);
    assert_eq!(orch.total_migrations(), 1);
    assert_eq!(orch.active_session_id(), "s");
}

#[test]
fn migration_refusals() {
    let mut orch = ClusterOrchestrator::new("Node-Beta (ARM64 Ampere)", "s");
    let same = LiveMigrationRequestPayload {
        session_id: "s".to_string(),
        source_node_id: "Node-Beta (ARM64 Ampere)".to_string(),
        target_node_id: "Node-Beta (ARM64 Ampere)".to_string(),
        preserve_framebuffer_state: true,
    };
    assert_eq!(orch.live_migrate(&same).unwrap_err(), ClusterError::AlreadyActiveNode);
    let unknown = LiveMigrationRequestPayload {
        session_id: "s".to_string(),
        source_node_id: "Node-Beta (ARM64 Ampere)".to_string(),
        target_node_id: "Node-Omega".to_string(),
        preserve_framebuffer_state: true,
    };
    assert_eq!(orch.live_migrate(&unknown).unwrap_err(), ClusterError::NodeNotFound);
    assert_eq!(orch.active_node_id(), "Node-Beta (ARM64 Ampere)");
    assert_eq!(orch.total_migrations(), 0);
    assert_eq!(ClusterError::NodeNotFound.message(), "nodo no encontrado en el inventario");
}
