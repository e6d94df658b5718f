//! Multi-node cluster orchestration and live migration of the VM session
//! between nodes (x86_64 high-performance, Ampere ARM64, edge micro-hosts),
//! preserving the framebuffer state.
//!
//! A node's load is kept in tenths of a percent.
use vstd::prelude::*;
use vstd::string::StringExecFns;
use crate::protocol::services::{ClusterNodeType, LiveMigrationRequestPayload};

verus! {

/// Downtime a live migration reports, in tenths of a millisecond.
pub const MIGRATION_DOWNTIME_TENTHS_MS: u32 = 14;
/// Dirty pages a live migration reports, in tenths of a megabyte.
pub const MIGRATION_DIRTY_PAGES_TENTHS_MB: u32 = 8192;

#[derive(Debug, Clone, Copy, PartialEq, Eq, Structural)]
pub enum ClusterError {
    NodeNotFound,
    AlreadyActiveNode,
    NodeOverloaded,
    MemoryTransferFailed,
}

impl ClusterError {
    /// The human-readable text of the error.
    pub fn message(&self) -> (r: String)
        ensures
            r@ == cluster_error_text(*self),
    {
        match self {
            ClusterError::NodeNotFound => String::from_str("nodo no encontrado en el inventario"),
            ClusterError::AlreadyActiveNode => String::from_str("el nodo objetivo ya es el nodo activo"),
            ClusterError::NodeOverloaded => String::from_str("nodo objetivo sobrecargado"),
            ClusterError::MemoryTransferFailed => String::from_str("error en transferencia de dirty pages"),
        }
    }
}

pub open spec fn cluster_error_text(e: ClusterError) -> Seq<char> {
    match e {
        ClusterError::NodeNotFound => "nodo no encontrado en el inventario"@,
        ClusterError::AlreadyActiveNode => "el nodo objetivo ya es el nodo activo"@,
        ClusterError::NodeOverloaded => "nodo objetivo sobrecargado"@,
        ClusterError::MemoryTransferFailed => "error en transferencia de dirty pages"@,
    }
}

/// A node of the inventory.
#[derive(Debug)]
pub struct ClusterNode {
    pub node_id: String,
    pub node_type: ClusterNodeType,
    pub ip_address: String,
    /// Load in tenths of a percent.
    pub load_tenths_percent: u32,
    pub is_active: bool,
}

impl Clone for ClusterNode {
    fn clone(&self) -> (r: Self)
        ensures
            r == *self,
    {
        ClusterNode {
            node_id: self.node_id.clone(),
            node_type: self.node_type,
            ip_address: self.ip_address.clone(),
            load_tenths_percent: self.load_tenths_percent,
            is_active: self.is_active,
        }
    }
}

/// What a completed live migration reports.
#[derive(Debug, Clone)]
pub struct MigrationReport {
    pub success: bool,
    /// Downtime of the switch, in tenths of a millisecond.
    pub downtime_tenths_ms: u32,
    /// Dirty pages transferred, in tenths of a megabyte.
    pub transferred_dirty_pages_tenths_mb: u32,
    pub active_node_id: String,
    pub status_message: String,
}

/// Orchestrator of the compute cluster.
pub struct ClusterOrchestrator {
    nodes: Vec<ClusterNode>,
    active_node_id: String,
    active_session_id: String,
    total_migrations: u64,
}

/// The abstract orchestrator: the inventory, the active node and session,
/// and the migrations done.
pub struct ClusterView {
    pub nodes: Seq<ClusterNode>,
    pub active_node_id: Seq<char>,
    pub active_session_id: Seq<char>,
    pub total_migrations: u64,
}

/// Whether the inventory holds a node named `id`.
pub open spec fn has_node(nodes: Seq<ClusterNode>, id: Seq<char>) -> bool {
    exists|i: int| 0 <= i < nodes.len() && nodes[i].node_id@ == id
}

/// A node after migrating from `source` to `target`: the target becomes
/// active, the source inactive, every other node stays as it was.
pub open spec fn node_after_migration(n: ClusterNode, source: Seq<char>, target: Seq<char>) -> ClusterNode {
    if n.node_id@ == target {
        ClusterNode { is_active: true, ..n }
    } else if n.node_id@ == source {
        ClusterNode { is_active: false, ..n }
    } else {
        n
    }
}

/// The report of a migration to `target`.
pub open spec fn migration_status(target: Seq<char>) -> Seq<char> {
    "Live migration completada exitosamente a "@ + target + " (Downtime: 1.4ms)"@
}

/// The inventory is keyed by node id: no id occurs twice.
pub open spec fn distinct_node_ids(nodes: Seq<ClusterNode>) -> bool {
    forall|i: int, j: int| 0 <= i < j < nodes.len() ==> #[trigger] nodes[i].node_id@ != #[trigger] nodes[j].node_id@
}

impl View for ClusterOrchestrator {
    type V = ClusterView;

    closed spec fn view(&self) -> ClusterView {
        ClusterView {
            nodes: self.nodes@,
            active_node_id: self.active_node_id@,
            active_session_id: self.active_session_id@,
            total_migrations: self.total_migrations,
        }
    }
}

fn node(id: &str, node_type: ClusterNodeType, ip: &str, load_tenths_percent: u32, initial: &String) -> (r: ClusterNode)
    ensures
        r.node_id@ == id@,
        r.node_type == node_type,
        r.ip_address@ == ip@,
        r.load_tenths_percent == load_tenths_percent,
        r.is_active == (initial@ == id@),
{
    let node_id = String::from_str(id);
    let is_active = *initial == node_id;
    ClusterNode { node_id, node_type, ip_address: String::from_str(ip), load_tenths_percent, is_active }
}

impl ClusterOrchestrator {
    pub open spec fn wf(&self) -> bool {
        distinct_node_ids(self@.nodes)
    }

    /// The inventory of three nodes, the one named `initial_node_id` active,
    /// with `session_id` as the active session and no migrations yet.
    pub fn new(initial_node_id: &str, session_id: &str) -> (r: Self)
        ensures
            r.wf(),
            r@.nodes.len() == 3,
            r@.nodes[0].node_id@ == "Node-Alpha (x86_64 High-Perf)"@,
            r@.nodes[0].node_type == ClusterNodeType::HighPerfX86_64,
            r@.nodes[0].ip_address@ == "192.168.1.120:7443"@,
            r@.nodes[0].load_tenths_percent == 245,
            r@.nodes[1].node_id@ == "Node-Beta (ARM64 Ampere)"@,
            r@.nodes[1].node_type == ClusterNodeType::AmpereArm64,
            r@.nodes[1].ip_address@ == "192.168.1.121:7443"@,
            r@.nodes[1].load_tenths_percent == 182,
            r@.nodes[2].node_id@ == "Node-Gamma (Edge Micro-Host)"@,
            r@.nodes[2].node_type == ClusterNodeType::EdgeMicroHost,
            r@.nodes[2].ip_address@ == "192.168.1.122:7443"@,
            r@.nodes[2].load_tenths_percent == 450,
            forall|i: int| 0 <= i < 3 ==> #[trigger] r@.nodes[i].is_active == (r@.nodes[i].node_id@
                == initial_node_id@),
            r@.active_node_id == initial_node_id@,
            r@.active_session_id == session_id@,
            r@.total_migrations == 0,
    {
        proof {
            reveal_strlit("Node-Alpha (x86_64 High-Perf)");
            reveal_strlit("Node-Beta (ARM64 Ampere)");
            reveal_strlit("Node-Gamma (Edge Micro-Host)");
        }
        let initial = String::from_str(initial_node_id);
        let mut nodes: Vec<ClusterNode> = Vec::new();
        nodes.push(node("Node-Alpha (x86_64 High-Perf)", ClusterNodeType::HighPerfX86_64, "192.168.1.120:7443", 245, &initial));
        nodes.push(node("Node-Beta (ARM64 Ampere)", ClusterNodeType::AmpereArm64, "192.168.1.121:7443", 182, &initial));
        nodes.push(node("Node-Gamma (Edge Micro-Host)", ClusterNodeType::EdgeMicroHost, "192.168.1.122:7443", 450, &initial));
        assert(nodes@[0].node_id@[5] == 'A' && nodes@[1].node_id@[5] == 'B' && nodes@[2].node_id@[5] == 'G');
        ClusterOrchestrator {
            nodes,
            active_node_id: initial,
            active_session_id: String::from_str(session_id),
            total_migrations: 0,
        }
    }

    /// A copy of the inventory.
    pub fn list_nodes(&self) -> (r: Vec<ClusterNode>)
        ensures
            r@ == self@.nodes,
    {
        let mut out: Vec<ClusterNode> = Vec::new();
        let mut i: usize = 0;
        while i < self.nodes.len()
            invariant
                0 <= i <= self.nodes@.len(),
                out@ == self.nodes@.take(i as int),
            decreases self.nodes@.len() - i,
        {
            out.push(self.nodes[i].clone());
            i = i + 1;
            assert(out@ =~= self.nodes@.take(i as int));
        }
        assert(self.nodes@.take(self.nodes@.len() as int) =~= self.nodes@);
        out
    }

    pub fn active_node_id(&self) -> (r: &str)
        ensures
            r@ == self@.active_node_id,
    {
        self.active_node_id.as_str()
    }

    pub fn active_session_id(&self) -> (r: &str)
        ensures
            r@ == self@.active_session_id,
    {
        self.active_session_id.as_str()
    }

    /// Migrates the live session from the request's source node to its
    /// target: refused when both are the same node, then when the target is
    /// not in the inventory; otherwise the target becomes the active node.
    pub fn live_migrate(&mut self, req: &LiveMigrationRequestPayload) -> (r: Result<MigrationReport, ClusterError>)
        requires
            old(self).wf(),
            old(self)@.total_migrations < u64::MAX,
        ensures
            final(self).wf(),
            req.source_node_id@ == req.target_node_id@ ==> r == Err::<MigrationReport, ClusterError>(
                ClusterError::AlreadyActiveNode,
            ) && final(self)@ == old(self)@,
            req.source_node_id@ != req.target_node_id@ && !has_node(old(self)@.nodes, req.target_node_id@)
                ==> r == Err::<MigrationReport, ClusterError>(ClusterError::NodeNotFound) && final(self)@
                == old(self)@,
            req.source_node_id@ != req.target_node_id@ && has_node(old(self)@.nodes, req.target_node_id@)
                ==> {
                &&& r is Ok
                &&& r->Ok_0.success
                &&& r->Ok_0.downtime_tenths_ms == MIGRATION_DOWNTIME_TENTHS_MS
                &&& r->Ok_0.transferred_dirty_pages_tenths_mb == MIGRATION_DIRTY_PAGES_TENTHS_MB
                &&& r->Ok_0.active_node_id@ == req.target_node_id@
                &&& r->Ok_0.status_message@ == migration_status(req.target_node_id@)
                &&& final(self)@.nodes.len() == old(self)@.nodes.len()
                &&& forall|i: int| 0 <= i < old(self)@.nodes.len() ==> #[trigger] final(self)@.nodes[i]
                    == node_after_migration(old(self)@.nodes[i], req.source_node_id@, req.target_node_id@)
                &&& final(self)@.active_node_id == req.target_node_id@
                &&& final(self)@.active_session_id == old(self)@.active_session_id
                &&& final(self)@.total_migrations == old(self)@.total_migrations + 1
            },
    {
        if req.source_node_id == req.target_node_id {
            return Err(ClusterError::AlreadyActiveNode);
        }
        let mut found = false;
        let mut i: usize = 0;
        while i < self.nodes.len()
            invariant
                0 <= i <= self.nodes@.len(),
                found == exists|j: int| 0 <= j < i && self.nodes@[j].node_id@ == req.target_node_id@,
            decreases self.nodes@.len() - i,
        {
            if self.nodes[i].node_id == req.target_node_id {
                found = true;
            }
            i = i + 1;
        }
        if !found {
            return Err(ClusterError::NodeNotFound);
        }
        let ghost before = self.nodes@;
        let mut k: usize = 0;
        while k < self.nodes.len()
            invariant
                0 <= k <= self.nodes@.len(),
                self.nodes@.len() == before.len(),
                distinct_node_ids(before),
                self.total_migrations == old(self).total_migrations,
                self.total_migrations < u64::MAX,
                self.active_session_id == old(self).active_session_id,
                forall|j: int| 0 <= j < k ==> #[trigger] self.nodes@[j] == node_after_migration(
                    before[j],
                    req.source_node_id@,
                    req.target_node_id@,
                ),
                forall|j: int| k <= j < before.len() ==> #[trigger] self.nodes@[j] == before[j],
            decreases self.nodes@.len() - k,
        {
            let mut n = self.nodes[k].clone();
            if n.node_id == req.target_node_id {
                n.is_active = true;
            } else if n.node_id == req.source_node_id {
                n.is_active = false;
            }
            self.nodes.set(k, n);
            k = k + 1;
        }
        assert(distinct_node_ids(self.nodes@)) by {
            assert forall|i: int, j: int| 0 <= i < j < self.nodes@.len() implies #[trigger] self.nodes@[i].node_id@
                != #[trigger] self.nodes@[j].node_id@ by {
                assert(self.nodes@[i].node_id@ == before[i].node_id@);
                assert(self.nodes@[j].node_id@ == before[j].node_id@);
            }
        }
        self.active_node_id = req.target_node_id.clone();
        self.total_migrations = self.total_migrations + 1;
        let mut status_message = String::from_str("Live migration completada exitosamente a ");
        status_message.append(self.active_node_id.as_str());
        status_message.append(" (Downtime: 1.4ms)");
        Ok(
            MigrationReport {
                success: true,
                downtime_tenths_ms: MIGRATION_DOWNTIME_TENTHS_MS,
                transferred_dirty_pages_tenths_mb: MIGRATION_DIRTY_PAGES_TENTHS_MB,
                active_node_id: self.active_node_id.clone(),
                status_message,
            },
        )
    }

    pub fn total_migrations(&self) -> (r: u64)
        ensures
            r == self@.total_migrations,
    {
        self.total_migrations
    }
}

} // verus!
