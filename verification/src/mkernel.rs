//! M-mode bootstrap: the one-shot programming of the machine-level
//! delegation and enable registers, followed by the switch into the
//! hypervisor's supervisor-mode entry point.
//!
//! The functions here compute the machine-register state the bootstrap
//! must leave behind. The surrounding program copies each field to the
//! hardware, checks the write-sensitive registers back, and issues the
//! final `mret`.

use vstd::prelude::*;

use crate::csr::CpuMode;
use crate::csr::MachineCsrs;
use crate::csr::VirtualizationMode;
use crate::csr::MEDELEG_HYPERVISOR_ECALL;
use crate::csr::MIDELEG_SEIP;
use crate::csr::MIDELEG_SSIP;
use crate::csr::MIDELEG_STIP;
use crate::csr::MISA_HV;
use crate::csr::PMPADDR0_FULL_RANGE;
use crate::csr::PMPCFG0_NAPOT_RWX;

verus! {

/// A fatal bootstrap condition: a programming error or missing hardware
/// capability, reported so the caller can halt with a diagnostic.
#[derive(Debug, Clone, Copy, PartialEq, Eq, Structural)]
pub enum HvError {
    /// The hardware does not implement the hypervisor extension: the
    /// `misa.H` bit stayed clear after being written.
    NoHypervisorExtension,
}

/// What a `misa` write leaves in the register: the H bit is writable only
/// where the hardware implements the hypervisor extension.
pub open spec fn spec_misa_write(c: MachineCsrs, value: u64) -> u64 {
    if c.misa_h_supported {
        value
    } else {
        value & !MISA_HV
    }
}

/// The machine registers after the delegation stage of M-mode init:
/// every synchronous exception but the hypervisor ecall delegated, all
/// three supervisor interrupts delegated, the hypervisor extension
/// requested in `misa`.
pub open spec fn spec_m_delegate(c: MachineCsrs) -> MachineCsrs {
    MachineCsrs {
        medeleg: 0xffffff ^ MEDELEG_HYPERVISOR_ECALL,
        mideleg: MIDELEG_SEIP | MIDELEG_STIP | MIDELEG_SSIP,
        misa: spec_misa_write(c, c.misa | MISA_HV),
        ..c
    }
}

/// The machine registers after a completed M-mode init: the delegation
/// stage, then the M-mode trap vector installed and host paging disabled.
pub open spec fn spec_m_init(c: MachineCsrs, trap_vector: u64) -> MachineCsrs {
    MachineCsrs { mtvec: trap_vector, satp: 0, ..spec_m_delegate(c) }
}

/// The machine registers ready for the `mret` into the hypervisor:
/// previous privilege S, previous virtualization Host, return address at
/// the hypervisor entry, and the PMP opened over all of physical memory.
pub open spec fn spec_switch_to_hypervisor(c: MachineCsrs, target: u64) -> MachineCsrs {
    MachineCsrs {
        mstatus_mpp: CpuMode::S,
        mstatus_mpv: VirtualizationMode::Host,
        mepc: target,
        pmpcfg0: PMPCFG0_NAPOT_RWX,
        pmpaddr0: PMPADDR0_FULL_RANGE,
        ..c
    }
}

/// Program the machine-level registers for the hypervisor: delegate the
/// synchronous exceptions (except the hypervisor ecall) and the three
/// supervisor interrupts, enable the hypervisor extension, install the
/// M-mode trap vector at `trap_vector`, and disable host paging.
///
/// Fails exactly when the hardware has no hypervisor extension; the
/// delegation registers are already written at that point, the trap
/// vector and `satp` are not.
pub fn init(csrs: &mut MachineCsrs, trap_vector: u64) -> (r: Result<(), HvError>)
    ensures
        r is Ok <==> old(csrs).misa_h_supported,
        old(csrs).misa_h_supported ==> *final(csrs) == spec_m_init(*old(csrs), trap_vector),
        !old(csrs).misa_h_supported ==> *final(csrs) == spec_m_delegate(*old(csrs)),
{
    // medeleg: delegate synchronous exceptions except for ecall from HS-mode
    csrs.medeleg = 0xffffff ^ MEDELEG_HYPERVISOR_ECALL;

    // mideleg: delegate all three supervisor-level interrupts
    csrs.mideleg = MIDELEG_SEIP | MIDELEG_STIP | MIDELEG_SSIP;

    // misa: enable the hypervisor extension; the bit is WARL and stays
    // clear on hardware without the extension
    let misa_state = csrs.misa;
    let requested = misa_state | MISA_HV;
    if csrs.misa_h_supported {
        csrs.misa = requested;
    } else {
        csrs.misa = requested & !MISA_HV;
    }
    if csrs.misa & MISA_HV != MISA_HV {
        proof {
            let m = misa_state;
            assert((m | 0x80u64) & 0x80u64 == 0x80u64) by (bit_vector);
            assert(((m | 0x80u64) & !0x80u64) & 0x80u64 != 0x80u64) by (bit_vector);
        }
        return Err(HvError::NoHypervisorExtension);
    }

    // mtvec: install the M-mode trap handler
    csrs.mtvec = trap_vector;

    // satp: no host paging
    csrs.satp = 0;

    proof {
        let m = misa_state;
        assert((m | 0x80u64) & 0x80u64 == 0x80u64) by (bit_vector);
        assert(((m | 0x80u64) & !0x80u64) & 0x80u64 != 0x80u64) by (bit_vector);
    }
    Ok(())
}

/// Stage the `mret` into HS-mode at `target`: previous privilege S,
/// previous virtualization Host, return address `target`, and the PMP
/// granting the hypervisor the full physical address space.
pub fn switch_to_hypervisor(csrs: &mut MachineCsrs, target: u64)
    ensures
        *final(csrs) == spec_switch_to_hypervisor(*old(csrs), target),
{
    csrs.mstatus_mpp = CpuMode::S;
    csrs.mstatus_mpv = VirtualizationMode::Host;
    csrs.mepc = target;
    csrs.pmpcfg0 = PMPCFG0_NAPOT_RWX;
    csrs.pmpaddr0 = PMPADDR0_FULL_RANGE;
}

/// The whole M-mode bootstrap: machine init, then the staging of the
/// `mret` into the hypervisor entry at `hypervisor_entry`. Fails exactly
/// when the hardware has no hypervisor extension, in which case the
/// switch is not staged.
pub fn rust_m_entrypoint(csrs: &mut MachineCsrs, trap_vector: u64, hypervisor_entry: u64) -> (r:
    Result<(), HvError>)
    ensures
        r is Ok <==> old(csrs).misa_h_supported,
        old(csrs).misa_h_supported ==> *final(csrs) == spec_switch_to_hypervisor(
            spec_m_init(*old(csrs), trap_vector),
            hypervisor_entry,
        ),
        !old(csrs).misa_h_supported ==> *final(csrs) == spec_m_delegate(*old(csrs)),
{
    init(csrs, trap_vector)?;
    switch_to_hypervisor(csrs, hypervisor_entry);
    Ok(())
}

/// After a completed M-mode init the hypervisor extension is on, every
/// supervisor-level interrupt is delegated, and the hypervisor ecall is
/// not delegated.
pub proof fn lemma_m_init_establishes_invariants(c: MachineCsrs, trap_vector: u64)
    requires
        c.misa_h_supported,
    ensures
        spec_m_init(c, trap_vector).misa & MISA_HV == MISA_HV,
        spec_m_init(c, trap_vector).mideleg & MIDELEG_SEIP == MIDELEG_SEIP,
        spec_m_init(c, trap_vector).mideleg & MIDELEG_STIP == MIDELEG_STIP,
        spec_m_init(c, trap_vector).mideleg & MIDELEG_SSIP == MIDELEG_SSIP,
        spec_m_init(c, trap_vector).medeleg & MEDELEG_HYPERVISOR_ECALL == 0,
{
    let m = c.misa;
    assert((m | 0x80u64) & 0x80u64 == 0x80u64) by (bit_vector);
    assert((0x200u64 | 0x20u64 | 0x2u64) & 0x200u64 == 0x200u64) by (bit_vector);
    assert((0x200u64 | 0x20u64 | 0x2u64) & 0x20u64 == 0x20u64) by (bit_vector);
    assert((0x200u64 | 0x20u64 | 0x2u64) & 0x2u64 == 0x2u64) by (bit_vector);
    assert((0xffffffu64 ^ 0x200u64) & 0x200u64 == 0u64) by (bit_vector);
}

/// Running the M-mode delegation twice leaves the same machine state as
/// running it once: the delegation-register writes are idempotent.
pub proof fn lemma_m_init_idempotent(c: MachineCsrs, trap_vector: u64)
    ensures
        spec_m_init(spec_m_init(c, trap_vector), trap_vector) == spec_m_init(c, trap_vector),
{
    let m = c.misa;
    assert((m | 0x80u64) | 0x80u64 == m | 0x80u64) by (bit_vector);
    assert((((m | 0x80u64) & !0x80u64) | 0x80u64) & !0x80u64 == (m | 0x80u64) & !0x80u64)
        by (bit_vector);
}

} // verus!
