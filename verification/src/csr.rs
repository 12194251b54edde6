//! Model of the RISC-V control/status registers the hypervisor programs.
//!
//! Every register the core writes is held here as a plain value: the
//! machine-level registers in [`MachineCsrs`], the (hypervisor-extended)
//! supervisor-level registers in [`HsCsrs`]. The surrounding program
//! copies these values to the hardware with the single corresponding CSR
//! instruction per field, followed by the appropriate fence, and checks
//! each write back where the bootstrap demands it.

use vstd::prelude::*;

verus! {

/// A privilege level a trap can come from or an `*ret` can enter.
#[derive(Debug, Clone, Copy, PartialEq, Eq, Structural)]
pub enum CpuMode {
    U,
    S,
    M,
}

/// Whether the CPU runs host or guest code after an `sret`.
#[derive(Debug, Clone, Copy, PartialEq, Eq, Structural)]
pub enum VirtualizationMode {
    Host,
    Guest,
}

/// The mode the CPU was in before the current trap, decoded from
/// `hstatus.SPV` and `sstatus.SPP`.
#[derive(Debug, Clone, Copy, PartialEq, Eq, Structural)]
pub enum PreviousMode {
    UMode,
    HsMode,
    MMode,
    VuMode,
    VsMode,
}

/// `medeleg` bit: environment call from HS-mode, which must stay at M.
pub const MEDELEG_HYPERVISOR_ECALL: u64 = 0x200;

/// `mideleg` bit: supervisor software interrupt pending.
pub const MIDELEG_SSIP: u64 = 0x2;

/// `mideleg` bit: supervisor timer interrupt pending.
pub const MIDELEG_STIP: u64 = 0x20;

/// `mideleg` bit: supervisor external interrupt pending.
pub const MIDELEG_SEIP: u64 = 0x200;

/// `misa` bit: the hypervisor extension ("H").
pub const MISA_HV: u64 = 0x80;

/// `hedeleg` bit: instruction address misaligned.
pub const HEDELEG_INST_ADDR_MISALIGN: u64 = 0x1;

/// `hedeleg` bit: breakpoint.
pub const HEDELEG_BREAKPOINT: u64 = 0x8;

/// `hedeleg` bit: environment call from U-mode or VU-mode.
pub const HEDELEG_ENV_CALL_FROM_U_MODE_OR_VU_MODE: u64 = 0x100;

/// `hedeleg` bit: instruction page fault.
pub const HEDELEG_INST_PAGE_FAULT: u64 = 0x1000;

/// `hedeleg` bit: load page fault.
pub const HEDELEG_LOAD_PAGE_FAULT: u64 = 0x2000;

/// `hedeleg` bit: store/AMO page fault.
pub const HEDELEG_STORE_AMO_PAGE_FAULT: u64 = 0x8000;

/// `hideleg` bit: virtual supervisor software interrupt.
pub const HIDELEG_VSSIP: u64 = 0x4;

/// `hideleg` bit: virtual supervisor timer interrupt.
pub const HIDELEG_VSTIP: u64 = 0x40;

/// `hideleg` bit: virtual supervisor external interrupt.
pub const HIDELEG_VSEIP: u64 = 0x400;

/// `sie` bit: supervisor timer interrupt enable.
pub const SIE_STIE: u64 = 0x20;

/// `sie` bit: supervisor external interrupt enable.
pub const SIE_SEIE: u64 = 0x200;

/// `sip` bit: supervisor timer interrupt pending.
pub const SIP_STIP: u64 = 0x20;

/// `hvip` bit: virtual supervisor timer interrupt pending; setting it
/// injects a timer interrupt into the guest.
pub const HVIP_VSTIP: u64 = 0x40;

/// `pmpcfg0` value granting read, write and execute over a NAPOT region.
pub const PMPCFG0_NAPOT_RWX: u64 = 31;

/// `pmpaddr0` value spanning the whole physical address space: one bit
/// for each of the 55 address bits below the NAPOT top bit.
pub const PMPADDR0_FULL_RANGE: u64 = 0x007f_ffff_ffff_ffff;

/// The machine-level registers the bootstrap programs.
#[derive(Debug, Clone, Copy, PartialEq, Eq, Structural)]
pub struct MachineCsrs {
    pub medeleg: u64,
    pub mideleg: u64,
    pub misa: u64,
    pub mtvec: u64,
    pub satp: u64,
    pub mepc: u64,
    pub mstatus_mpp: CpuMode,
    pub mstatus_mpv: VirtualizationMode,
    pub pmpcfg0: u64,
    pub pmpaddr0: u64,
    /// Whether the hardware implements the hypervisor extension; on a
    /// machine without it the `misa.H` bit is hardwired to zero and a
    /// write cannot set it.
    pub misa_h_supported: bool,
}

/// The supervisor-level and hypervisor-level registers the core programs
/// while running in HS-mode.
#[derive(Debug, Clone, Copy, PartialEq, Eq, Structural)]
pub struct HsCsrs {
    pub hedeleg: u64,
    pub hideleg: u64,
    pub hvip: u64,
    pub hgatp: u64,
    pub hstatus_spv: VirtualizationMode,
    pub stvec: u64,
    pub sscratch: u64,
    pub sepc: u64,
    pub sie: u64,
    pub sip: u64,
    pub sstatus_sie: bool,
    pub sstatus_spp: CpuMode,
}

/// The mode the CPU was in before a trap, as the pair
/// (`hstatus.SPV`, `sstatus.SPP`) encodes it. M-mode exists only
/// non-virtualized: a virtualized M-mode is no mode at all and is
/// rejected.
pub open spec fn spec_previous_mode(
    spv: VirtualizationMode,
    spp: CpuMode,
) -> Option<PreviousMode> {
    match (spv, spp) {
        (VirtualizationMode::Host, CpuMode::U) => Some(PreviousMode::UMode),
        (VirtualizationMode::Host, CpuMode::S) => Some(PreviousMode::HsMode),
        (VirtualizationMode::Host, CpuMode::M) => Some(PreviousMode::MMode),
        (VirtualizationMode::Guest, CpuMode::U) => Some(PreviousMode::VuMode),
        (VirtualizationMode::Guest, CpuMode::S) => Some(PreviousMode::VsMode),
        (VirtualizationMode::Guest, CpuMode::M) => None,
    }
}

/// Decode the mode the CPU trapped from out of `hstatus.SPV` and
/// `sstatus.SPP`.
pub fn previous_mode(spv: VirtualizationMode, spp: CpuMode) -> (r: Option<PreviousMode>)
    ensures
        r == spec_previous_mode(spv, spp),
{
    match (spv, spp) {
        (VirtualizationMode::Host, CpuMode::U) => Some(PreviousMode::UMode),
        (VirtualizationMode::Host, CpuMode::S) => Some(PreviousMode::HsMode),
        (VirtualizationMode::Host, CpuMode::M) => Some(PreviousMode::MMode),
        (VirtualizationMode::Guest, CpuMode::U) => Some(PreviousMode::VuMode),
        (VirtualizationMode::Guest, CpuMode::S) => Some(PreviousMode::VsMode),
        (VirtualizationMode::Guest, CpuMode::M) => None,
    }
}

} // verus!
