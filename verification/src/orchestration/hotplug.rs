//! Dynamic hot-plug of the guest VM's resources: virtual cores from 2 to 16
//! and memory from 4 to 32 GB, applied through a QMP (QEMU Monitor
//! Protocol) command.
use vstd::prelude::*;
use vstd::string::StringExecFns;
use crate::protocol::services::{VmResourceHotPlugRequestPayload, VmResourceHotPlugResponsePayload};
use crate::text::decimal::{decimal, push_decimal};

verus! {

pub const MIN_VCPU_CORES: u32 = 2;
pub const MAX_VCPU_CORES: u32 = 16;
pub const MIN_VRAM_GB: u32 = 4;
pub const MAX_VRAM_GB: u32 = 32;

#[derive(Debug, Clone, Copy, PartialEq, Eq, Structural)]
pub enum HotPlugError {
    /// The requested cores are outside `[2, 16]`.
    InvalidVcpuRange,
    /// The requested memory is outside `[4, 32]` GB.
    InvalidVramRange,
    /// The QMP/KVM command failed.
    QmpExecutionFailed,
}

impl HotPlugError {
    /// The human-readable text of the error.
    pub fn message(&self) -> (r: String)
        ensures
            r@ == hotplug_error_text(*self),
    {
        match self {
            HotPlugError::InvalidVcpuRange => String::from_str("vCPU fuera del rango permitido [2..16]"),
            HotPlugError::InvalidVramRange => String::from_str(
                "vRAM fuera del rango permitido [4..32] GB",
            ),
            HotPlugError::QmpExecutionFailed => String::from_str(
                "fallo al ejecutar comando QMP/KVM",
            ),
        }
    }
}

pub open spec fn hotplug_error_text(e: HotPlugError) -> Seq<char> {
    match e {
        HotPlugError::InvalidVcpuRange => "vCPU fuera del rango permitido [2..16]"@,
        HotPlugError::InvalidVramRange => "vRAM fuera del rango permitido [4..32] GB"@,
        HotPlugError::QmpExecutionFailed => "fallo al ejecutar comando QMP/KVM"@,
    }
}

/// Controller of the guest VM's resources.
pub struct VmResourceController {
    current_vcpu: u32,
    current_vram_gb: u32,
}

/// `x` clamped into `[lo, hi]`.
pub open spec fn clamp_u32(x: u32, lo: u32, hi: u32) -> u32 {
    if x < lo {
        lo
    } else if x > hi {
        hi
    } else {
        x
    }
}

pub open spec fn vcpu_in_range(n: u32) -> bool {
    MIN_VCPU_CORES <= n <= MAX_VCPU_CORES
}

pub open spec fn vram_in_range(n: u32) -> bool {
    MIN_VRAM_GB <= n <= MAX_VRAM_GB
}

/// The QMP command issued when the request names none.
pub open spec fn default_qmp_command(vcpu: u32, vram_gb: u32) -> Seq<char> {
    "{\"execute\": \"qmp_hotplug_resources\", \"arguments\": {\"vcpu\": "@ + decimal(vcpu as nat)
        + ", \"vram_gb\": "@ + decimal(vram_gb as nat) + "}}"@
}

/// The report of an applied hot-plug.
pub open spec fn hotplug_message(vcpu: u32, vram_gb: u32, qmp: Seq<char>) -> Seq<char> {
    "Hot-Plug aplicado exitosamente: "@ + decimal(vcpu as nat) + " vCPUs y "@ + decimal(
        vram_gb as nat,
    ) + " GB vRAM vía QMP ["@ + qmp + "]"@
}

/// The QMP command a request is carried out with.
pub open spec fn qmp_command_for(req: VmResourceHotPlugRequestPayload) -> Seq<char> {
    match req.qmp_command {
        Some(c) => c@,
        None => default_qmp_command(req.target_vcpu_cores, req.target_vram_gb),
    }
}

impl View for VmResourceController {
    /// Active cores and memory in GB.
    type V = (u32, u32);

    closed spec fn view(&self) -> (u32, u32) {
        (self.current_vcpu, self.current_vram_gb)
    }
}

impl Default for VmResourceController {
    fn default() -> (r: Self)
        ensures
            r.wf(),
            r@ == (MIN_VCPU_CORES, MIN_VRAM_GB),
    {
        Self::new(MIN_VCPU_CORES, MIN_VRAM_GB)
    }
}

impl VmResourceController {
    /// The resources always lie within their ranges.
    pub open spec fn wf(&self) -> bool {
        vcpu_in_range(self@.0) && vram_in_range(self@.1)
    }

    /// A controller starting from the given resources, each clamped into
    /// its range.
    pub fn new(initial_vcpu: u32, initial_vram_gb: u32) -> (r: Self)
        ensures
            r.wf(),
            r@ == (clamp_u32(initial_vcpu, MIN_VCPU_CORES, MAX_VCPU_CORES), clamp_u32(
                initial_vram_gb,
                MIN_VRAM_GB,
                MAX_VRAM_GB,
            )),
    {
        let current_vcpu = if initial_vcpu < MIN_VCPU_CORES {
            MIN_VCPU_CORES
        } else if initial_vcpu > MAX_VCPU_CORES {
            MAX_VCPU_CORES
        } else {
            initial_vcpu
        };
        let current_vram_gb = if initial_vram_gb < MIN_VRAM_GB {
            MIN_VRAM_GB
        } else if initial_vram_gb > MAX_VRAM_GB {
            MAX_VRAM_GB
        } else {
            initial_vram_gb
        };
        VmResourceController { current_vcpu, current_vram_gb }
    }

    pub fn current_vcpu(&self) -> (r: u32)
        ensures
            r == self@.0,
    {
        self.current_vcpu
    }

    pub fn current_vram_gb(&self) -> (r: u32)
        ensures
            r == self@.1,
    {
        self.current_vram_gb
    }

    /// Applies a hot-plug request: cores out of range are refused first,
    /// then memory out of range; otherwise both become active and the
    /// response reports them with the QMP command used (the request's own,
    /// or the default one for the new values).
    pub fn apply_hotplug(&mut self, req: &VmResourceHotPlugRequestPayload) -> (r: Result<
        VmResourceHotPlugResponsePayload,
        HotPlugError,
    >)
        requires
            old(self).wf(),
        ensures
            final(self).wf(),
            !vcpu_in_range(req.target_vcpu_cores) ==> r == Err::<VmResourceHotPlugResponsePayload, HotPlugError>(
                HotPlugError::InvalidVcpuRange,
            ) && final(self)@ == old(self)@,
            vcpu_in_range(req.target_vcpu_cores) && !vram_in_range(req.target_vram_gb) ==> r == Err::<
                VmResourceHotPlugResponsePayload,
                HotPlugError,
            >(HotPlugError::InvalidVramRange) && final(self)@ == old(self)@,
            vcpu_in_range(req.target_vcpu_cores) && vram_in_range(req.target_vram_gb) ==> {
                &&& r is Ok
                &&& final(self)@ == (req.target_vcpu_cores, req.target_vram_gb)
                &&& r->Ok_0.success
                &&& r->Ok_0.active_vcpu_cores == req.target_vcpu_cores
                &&& r->Ok_0.active_vram_gb == req.target_vram_gb
                &&& r->Ok_0.message@ == hotplug_message(
                    req.target_vcpu_cores,
                    req.target_vram_gb,
                    qmp_command_for(*req),
                )
            },
    {
        if req.target_vcpu_cores < MIN_VCPU_CORES || req.target_vcpu_cores > MAX_VCPU_CORES {
            return Err(HotPlugError::InvalidVcpuRange);
        }
        if req.target_vram_gb < MIN_VRAM_GB || req.target_vram_gb > MAX_VRAM_GB {
            return Err(HotPlugError::InvalidVramRange);
        }
        self.current_vcpu = req.target_vcpu_cores;
        self.current_vram_gb = req.target_vram_gb;
        let qmp_cmd = match &req.qmp_command {
            Some(cmd) => cmd.clone(),
            None => Self::default_qmp(self.current_vcpu, self.current_vram_gb),
        };
        let mut message = String::from_str("Hot-Plug aplicado exitosamente: ");
        push_decimal(&mut message, self.current_vcpu as u64);
        message.append(" vCPUs y ");
        push_decimal(&mut message, self.current_vram_gb as u64);
        message.append(" GB vRAM vía QMP [");
        message.append(qmp_cmd.as_str());
        message.append("]");
        Ok(
            VmResourceHotPlugResponsePayload {
                success: true,
                active_vcpu_cores: self.current_vcpu,
                active_vram_gb: self.current_vram_gb,
                message,
            },
        )
    }

    fn default_qmp(vcpu: u32, vram_gb: u32) -> (r: String)
        ensures
            r@ == default_qmp_command(vcpu, vram_gb),
    {
        let mut s = String::from_str("{\"execute\": \"qmp_hotplug_resources\", \"arguments\": {\"vcpu\": ");
        push_decimal(&mut s, vcpu as u64);
        s.append(", \"vram_gb\": ");
        push_decimal(&mut s, vram_gb as u64);
        s.append("}}");
        s
    }
}

} // verus!
