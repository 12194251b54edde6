//! The hypervisor running in HS-mode: its one-shot initialization, the
//! switch into a guest, and the trap dispatcher entered on every trap
//! out of the guest or the host.
//!
//! The assembly trap entry saves all registers into the [`TrapFrame`]
//! found through `sscratch`, then calls the dispatcher with
//! `(sepc, stval, scause, sstatus, &frame)` in `a0..a4`; the value the
//! dispatcher returns is written back to `sepc` before the epilogue
//! restores the frame and issues `sret`. Device I/O — claiming and
//! completing interrupts at the PLIC, the UART and virtio handlers — and
//! the park-forever and panic policies stay with the surrounding
//! program, which acts on the [`TrapKind`] the dispatcher hands back.

use vstd::prelude::*;

use crate::csr::CpuMode;
use crate::csr::HsCsrs;
use crate::csr::VirtualizationMode;
use crate::csr::HEDELEG_BREAKPOINT;
use crate::csr::HEDELEG_ENV_CALL_FROM_U_MODE_OR_VU_MODE;
use crate::csr::HEDELEG_INST_ADDR_MISALIGN;
use crate::csr::HEDELEG_INST_PAGE_FAULT;
use crate::csr::HEDELEG_LOAD_PAGE_FAULT;
use crate::csr::HEDELEG_STORE_AMO_PAGE_FAULT;
use crate::csr::HIDELEG_VSEIP;
use crate::csr::HIDELEG_VSSIP;
use crate::csr::HIDELEG_VSTIP;
use crate::csr::HVIP_VSTIP;
use crate::csr::SIE_SEIE;
use crate::csr::SIE_STIE;
use crate::csr::SIP_STIP;
use crate::global_const::HYPERVISOR_TIMER_TICK;
use crate::global_const::MAX_NUMBER_OF_GUESTS;
use crate::guest::Guest;
use crate::sbi::spec_is_set_timer_call;
use crate::sbi::spec_sbi_ret;
use crate::sbi::VmSBI;
use crate::timer::spec_set_timer;
use crate::timer::spec_tick;
use crate::timer::spec_timer_fired;
use crate::timer::VmTimers;

verus! {

/// Byte offset of the general-purpose register block in the trap frame.
pub const TRAP_FRAME_REGS_OFFSET: usize = 0;

/// Byte offset of the floating-point register block in the trap frame.
pub const TRAP_FRAME_FREGS_OFFSET: usize = 256;

/// Byte offset of the saved program counter in the trap frame.
pub const TRAP_FRAME_PC_OFFSET: usize = 512;

/// Total payload size of the trap frame in bytes (padded to a page when
/// allocated).
pub const TRAP_FRAME_SIZE: usize = 520;

/// Bytes each saved register occupies.
pub const TRAP_FRAME_REG_BYTES: usize = 8;

/// Snapshot of the CPU registers saved by the assembly trap entry:
/// 32 general-purpose registers, 32 floating-point register images, and
/// the program counter, laid out contiguously at the offsets above. The
/// layout is a contract with the assembly save/restore stubs.
#[derive(Debug, Clone, Copy)]
pub struct TrapFrame {
    pub regs: [u64; 32],
    pub fregs: [u64; 32],
    pub pc: u64,
}

impl TrapFrame {
    /// An all-zero frame, as the freshly allocated trap-frame page holds.
    pub fn new() -> (r: TrapFrame)
        ensures
            forall|i: int| 0 <= i < 32 ==> r.regs@[i] == 0,
            forall|i: int| 0 <= i < 32 ==> r.fregs@[i] == 0,
            r.pc == 0,
    {
        TrapFrame { regs: [0u64; 32], fregs: [0u64; 32], pc: 0 }
    }
}

/// Byte offset of general-purpose register `i` within the trap frame.
pub open spec fn spec_reg_offset(i: int) -> int {
    TRAP_FRAME_REGS_OFFSET + TRAP_FRAME_REG_BYTES * i
}

/// Byte offset of floating-point register `i` within the trap frame.
pub open spec fn spec_freg_offset(i: int) -> int {
    TRAP_FRAME_FREGS_OFFSET + TRAP_FRAME_REG_BYTES * i
}

/// The trap-frame layout: registers at bytes 0..256, floating-point
/// registers at 256..512, the program counter at 512, 520 bytes in all,
/// each register 8 bytes and none overlapping the next.
pub proof fn lemma_trap_frame_layout()
    ensures
        forall|i: int| 0 <= i < 32 ==> spec_reg_offset(i) == 8 * i,
        forall|i: int|
            0 <= i < 32 ==> TRAP_FRAME_REGS_OFFSET <= spec_reg_offset(i) && spec_reg_offset(i)
                + TRAP_FRAME_REG_BYTES <= TRAP_FRAME_FREGS_OFFSET,
        forall|i: int|
            0 <= i < 32 ==> TRAP_FRAME_FREGS_OFFSET <= spec_freg_offset(i) && spec_freg_offset(i)
                + TRAP_FRAME_REG_BYTES <= TRAP_FRAME_PC_OFFSET,
        forall|i: int|
            0 <= i < 31 ==> #[trigger] spec_reg_offset(i) + TRAP_FRAME_REG_BYTES == spec_reg_offset(
                i + 1,
            ),
        forall|i: int|
            0 <= i < 31 ==> #[trigger] spec_freg_offset(i) + TRAP_FRAME_REG_BYTES
                == spec_freg_offset(i + 1),
        TRAP_FRAME_REGS_OFFSET == 0,
        TRAP_FRAME_FREGS_OFFSET == 256,
        TRAP_FRAME_PC_OFFSET == 512,
        TRAP_FRAME_PC_OFFSET + TRAP_FRAME_REG_BYTES == TRAP_FRAME_SIZE,
        TRAP_FRAME_SIZE == 520,
{
}

/// What a trap is, decoded from `scause`.
#[derive(Debug, Clone, Copy, PartialEq, Eq, Structural)]
pub enum TrapKind {
    /// Asynchronous, code 9: an external interrupt to claim at the PLIC.
    SupervisorExternalInterrupt,
    /// Asynchronous, code 5: the host timer interrupt.
    SupervisorTimerInterrupt,
    /// Asynchronous, any other code: fatal.
    UnknownInterrupt(u64),
    /// Synchronous, code 8: environment call from U-mode or VU-mode;
    /// the caller parks.
    EcallFromUOrVuMode,
    /// Synchronous, code 10: environment call from VS-mode, served by
    /// the virtual SBI.
    EcallFromVsMode,
    /// Synchronous, code 21: load guest-page fault; the caller parks.
    LoadGuestPageFault,
    /// Synchronous, code 23: store/AMO guest-page fault; the caller
    /// parks.
    StoreAmoGuestPageFault,
    /// Synchronous, any other code: fatal.
    UnknownException(u64),
}

/// Whether `scause` reports an interrupt (top bit set) rather than a
/// synchronous exception.
pub open spec fn spec_is_async(scause: u64) -> bool {
    (scause >> 63) & 1 == 1
}

/// The cause code within `scause`.
pub open spec fn spec_cause_code(scause: u64) -> u64 {
    scause & 0xfff
}

/// The dispatch table over `scause`.
pub open spec fn spec_classify_trap(scause: u64) -> TrapKind {
    if spec_is_async(scause) {
        if spec_cause_code(scause) == 9 {
            TrapKind::SupervisorExternalInterrupt
        } else if spec_cause_code(scause) == 5 {
            TrapKind::SupervisorTimerInterrupt
        } else {
            TrapKind::UnknownInterrupt(spec_cause_code(scause))
        }
    } else {
        if spec_cause_code(scause) == 8 {
            TrapKind::EcallFromUOrVuMode
        } else if spec_cause_code(scause) == 10 {
            TrapKind::EcallFromVsMode
        } else if spec_cause_code(scause) == 21 {
            TrapKind::LoadGuestPageFault
        } else if spec_cause_code(scause) == 23 {
            TrapKind::StoreAmoGuestPageFault
        } else {
            TrapKind::UnknownException(spec_cause_code(scause))
        }
    }
}

/// Decode `scause` into the trap's kind.
pub fn classify_trap(scause: u64) -> (k: TrapKind)
    ensures
        k == spec_classify_trap(scause),
{
    let is_async = (scause >> 63) & 1 == 1;
    let cause_code = scause & 0xfff;
    if is_async {
        match cause_code {
            9 => TrapKind::SupervisorExternalInterrupt,
            5 => TrapKind::SupervisorTimerInterrupt,
            _ => TrapKind::UnknownInterrupt(cause_code),
        }
    } else {
        match cause_code {
            8 => TrapKind::EcallFromUOrVuMode,
            10 => TrapKind::EcallFromVsMode,
            21 => TrapKind::LoadGuestPageFault,
            23 => TrapKind::StoreAmoGuestPageFault,
            _ => TrapKind::UnknownException(cause_code),
        }
    }
}

/// Where a claimed external interrupt is routed, by its PLIC source id.
#[derive(Debug, Clone, Copy, PartialEq, Eq, Structural)]
pub enum ExternalIntSource {
    /// Source ids 1 through 8: a virtio queue.
    Virtio(u32),
    /// Source id 10: the UART.
    Uart,
    /// Any other source: fatal.
    Unhandled(u32),
}

/// The routing of a claimed PLIC source id.
pub open spec fn spec_route_external_interrupt(id: u32) -> ExternalIntSource {
    if 1 <= id && id <= 8 {
        ExternalIntSource::Virtio(id)
    } else if id == 10 {
        ExternalIntSource::Uart
    } else {
        ExternalIntSource::Unhandled(id)
    }
}

/// Route a claimed external interrupt to its device handler. The caller
/// claims the id at the PLIC before and completes the same id after.
pub fn route_external_interrupt(id: u32) -> (r: ExternalIntSource)
    ensures
        r == spec_route_external_interrupt(id),
{
    if 1 <= id && id <= 8 {
        ExternalIntSource::Virtio(id)
    } else if id == 10 {
        ExternalIntSource::Uart
    } else {
        ExternalIntSource::Unhandled(id)
    }
}

/// The supervisor registers after interrupts are enabled: timer and
/// external interrupts allowed in `sie`, the global `sstatus.SIE` on.
pub open spec fn spec_enable_interrupt(c: HsCsrs) -> HsCsrs {
    HsCsrs { sie: c.sie | SIE_STIE | SIE_SEIE, sstatus_sie: true, ..c }
}

/// The supervisor and hypervisor registers after HS-mode init: the
/// guest-visible exceptions and all virtual interrupts delegated to
/// VS, no virtual interrupt pending, no supervisor timer pending, the
/// trap vector and the trap-frame address installed, and interrupts
/// enabled.
pub open spec fn spec_hs_init(c: HsCsrs, trap_vector: u64, trap_frame_addr: u64) -> HsCsrs {
    spec_enable_interrupt(
        HsCsrs {
            hedeleg: HEDELEG_INST_ADDR_MISALIGN | HEDELEG_BREAKPOINT
                | HEDELEG_ENV_CALL_FROM_U_MODE_OR_VU_MODE | HEDELEG_INST_PAGE_FAULT
                | HEDELEG_LOAD_PAGE_FAULT | HEDELEG_STORE_AMO_PAGE_FAULT,
            hideleg: HIDELEG_VSEIP | HIDELEG_VSTIP | HIDELEG_VSSIP,
            hvip: 0,
            sip: c.sip & !SIP_STIP,
            stvec: trap_vector,
            sscratch: trap_frame_addr,
            ..c
        },
    )
}

/// Enable interrupt delivery to the hypervisor: timer and external
/// interrupt enables in `sie`, then the global `sstatus.SIE`. The PLIC
/// source enables are the caller's, done before this.
pub fn enable_interrupt(csrs: &mut HsCsrs)
    ensures
        *final(csrs) == spec_enable_interrupt(*old(csrs)),
{
    csrs.sie = csrs.sie | SIE_STIE | SIE_SEIE;
    csrs.sstatus_sie = true;
}

/// Program the HS-mode registers for running guests: delegate the
/// guest-visible synchronous exceptions and all virtual interrupts to
/// VS-mode, clear pending virtual and supervisor-timer interrupts,
/// install the trap vector at `trap_vector` and the trap-frame page at
/// `trap_frame_addr` (stowed in `sscratch` for the assembly prologue),
/// and enable interrupts. A zero trap-frame address would mean the
/// allocator failed: a programming error, kept out by precondition.
pub fn init(csrs: &mut HsCsrs, trap_vector: u64, trap_frame_addr: u64)
    requires
        trap_frame_addr != 0,
    ensures
        *final(csrs) == spec_hs_init(*old(csrs), trap_vector, trap_frame_addr),
{
    // hedeleg: delegate the guest-visible synchronous exceptions
    csrs.hedeleg = HEDELEG_INST_ADDR_MISALIGN | HEDELEG_BREAKPOINT
        | HEDELEG_ENV_CALL_FROM_U_MODE_OR_VU_MODE | HEDELEG_INST_PAGE_FAULT
        | HEDELEG_LOAD_PAGE_FAULT | HEDELEG_STORE_AMO_PAGE_FAULT;

    // hideleg: delegate all virtual interrupts
    csrs.hideleg = HIDELEG_VSEIP | HIDELEG_VSTIP | HIDELEG_VSSIP;

    // no virtual interrupt and no supervisor timer pending initially
    csrs.hvip = 0;
    csrs.sip = csrs.sip & !SIP_STIP;

    // stvec: the assembly stub that saves to the trap frame and calls
    // the dispatcher
    csrs.stvec = trap_vector;

    // sscratch: where the prologue finds the trap frame
    csrs.sscratch = trap_frame_addr;

    enable_interrupt(csrs);
}

/// The registers staged for the `sret` into a guest: the guest's
/// second-stage translation root in `hgatp`, previous virtualization
/// Guest, previous privilege S, and the guest's entry point in `sepc`.
pub open spec fn spec_switch_to_guest(c: HsCsrs, hgatp: u64, sepc: u64) -> HsCsrs {
    HsCsrs {
        hgatp: hgatp,
        hstatus_spv: VirtualizationMode::Guest,
        sstatus_spp: CpuMode::S,
        sepc: sepc,
        ..c
    }
}

/// Stage the first entry into `target`: program `hgatp` from the guest
/// (the caller follows the hardware write with `hfence.gvma` and a
/// readback check), set `hstatus.SPV` to Guest and `sstatus.SPP` to S,
/// and point `sepc` at the guest's entry. The caller then issues `sret`
/// and does not return.
pub fn switch_to_guest(csrs: &mut HsCsrs, target: &Guest)
    ensures
        *final(csrs) == spec_switch_to_guest(*old(csrs), target.hgatp, target.sepc),
        final(csrs).hgatp == target.hgatp,
        final(csrs).hstatus_spv == VirtualizationMode::Guest,
        final(csrs).sstatus_spp == CpuMode::S,
        final(csrs).sepc == target.sepc,
{
    csrs.hgatp = target.hgatp;
    csrs.hstatus_spv = VirtualizationMode::Guest;
    csrs.sstatus_spp = CpuMode::S;
    csrs.sepc = target.sepc;
}

/// The hypervisor's bring-up on entry from M-mode: HS-mode init, then
/// the staging of the first entry into `guest`. The caller creates the
/// guest and loads its image between the two stages and issues the
/// final `sret`.
pub fn rust_hypervisor_entrypoint(
    csrs: &mut HsCsrs,
    trap_vector: u64,
    trap_frame_addr: u64,
    guest: &Guest,
)
    requires
        trap_frame_addr != 0,
    ensures
        *final(csrs) == spec_switch_to_guest(
            spec_hs_init(*old(csrs), trap_vector, trap_frame_addr),
            guest.hgatp,
            guest.sepc,
        ),
{
    init(csrs, trap_vector, trap_frame_addr);
    switch_to_guest(csrs, guest);
}

/// The supervisor registers after the host timer interrupt is handled:
/// the pending bit cleared, the timer enable masked (one-shot), and a
/// virtual timer interrupt injected exactly when the first guest's
/// ticked timer has fired.
pub open spec fn spec_timer_interrupt_csrs(c: HsCsrs, guest0_fired: bool) -> HsCsrs {
    HsCsrs {
        sip: c.sip & !SIP_STIP,
        sie: c.sie & !SIE_STIE,
        hvip: if guest0_fired {
            c.hvip | HVIP_VSTIP
        } else {
            c.hvip
        },
        ..c
    }
}

/// Handle the host timer interrupt: acknowledge it one-shot (clear
/// `sip.STIP`, mask `sie.STIE`), advance every guest timer by the
/// configured tick, and inject a virtual timer interrupt into the first
/// guest when its timer has fired.
pub fn handle_timer_interrupt(csrs: &mut HsCsrs, timers: &mut VmTimers)
    requires
        forall|i: int|
            0 <= i < MAX_NUMBER_OF_GUESTS && old(timers).timers@[i].enabled
                ==> old(timers).timers@[i].mtime + HYPERVISOR_TIMER_TICK <= u64::MAX,
    ensures
        forall|i: int|
            0 <= i < MAX_NUMBER_OF_GUESTS ==> final(timers).timers@[i] == spec_tick(
                old(timers).timers@[i],
                HYPERVISOR_TIMER_TICK as u64,
            ),
        *final(csrs) == spec_timer_interrupt_csrs(
            *old(csrs),
            spec_timer_fired(spec_tick(old(timers).timers@[0], HYPERVISOR_TIMER_TICK as u64)),
        ),
{
    csrs.sip = csrs.sip & !SIP_STIP;
    csrs.sie = csrs.sie & !SIE_STIE;

    timers.tick_vm_timers(HYPERVISOR_TIMER_TICK);
    let timer_trigger_list = timers.check_timers();
    let guest0_timer_intr_trigger = timer_trigger_list[0];
    if guest0_timer_intr_trigger {
        csrs.hvip = csrs.hvip | HVIP_VSTIP;
    }
}

/// Serve an environment call from VS-mode: read the extension id from
/// `a7`, the function id from `a6` and the arguments from `a0..a5` of
/// the saved frame, dispatch to the first guest's virtual SBI, write the
/// `(error, value)` pair back into `a0` and `a1`, and return the
/// trapping PC advanced past the `ecall` instruction.
pub fn handle_vs_ecall(
    frame: &mut TrapFrame,
    timers: &mut VmTimers,
    csrs: &mut HsCsrs,
    sepc: u64,
) -> (new_sepc: u64)
    requires
        sepc + 4 <= u64::MAX,
    ensures
        new_sepc == sepc + 4,
        ({
            let ext = old(frame).regs@[17];
            let fid = old(frame).regs@[16];
            let ret = spec_sbi_ret(ext, fid);
            &&& final(frame).regs@ == old(frame).regs@.update(10, ret.error).update(11, ret.value)
            &&& final(frame).fregs == old(frame).fregs
            &&& final(frame).pc == old(frame).pc
            &&& spec_is_set_timer_call(ext, fid) ==> {
                &&& final(timers).timers@ == old(timers).timers@.update(
                    0,
                    spec_set_timer(old(timers).timers@[0], old(frame).regs@[10]),
                )
                &&& *final(csrs) == (HsCsrs { hvip: old(csrs).hvip & !HVIP_VSTIP, ..*old(csrs) })
            }
            &&& !spec_is_set_timer_call(ext, fid) ==> {
                &&& *final(timers) == *old(timers)
                &&& *final(csrs) == *old(csrs)
            }
        }),
{
    let a7 = frame.regs[17];
    let a6 = frame.regs[16];
    let params = [
        frame.regs[10],
        frame.regs[11],
        frame.regs[12],
        frame.regs[13],
        frame.regs[14],
        frame.regs[15],
    ];

    // one guest is brought up; every VS-mode ecall is its
    let guest_number: usize = 0;
    let sbi = VmSBI::with_guest_number(guest_number);
    let sbi_result = sbi.handle_ecall(a7, a6, params, timers, csrs);

    frame.regs[10] = sbi_result.error;
    frame.regs[11] = sbi_result.value;

    // skip to the instruction after the guest's ecall
    sepc + 4
}

/// The trap dispatcher, entered from the assembly prologue with the trap
/// registers and the saved frame. It decodes `scause`, serves what the
/// core owns — the host timer interrupt and the VS-mode environment call
/// — and hands everything else back as the returned [`TrapKind`]: an
/// external interrupt for the caller to claim, route and complete at the
/// PLIC, a fault to park on, or an unknown cause to die on. The returned
/// PC, restored into `sepc` before the epilogue's `sret`, is the
/// trapping PC advanced by one instruction for a served environment
/// call and the trapping PC unchanged for everything else.
pub fn rust_strap_handler(
    sepc: u64,
    stval: u64,
    scause: u64,
    sstatus: u64,
    frame: &mut TrapFrame,
    csrs: &mut HsCsrs,
    timers: &mut VmTimers,
) -> (r: (u64, TrapKind))
    requires
        spec_classify_trap(scause) is EcallFromVsMode ==> sepc + 4 <= u64::MAX,
        spec_classify_trap(scause) is SupervisorTimerInterrupt ==> forall|i: int|
            0 <= i < MAX_NUMBER_OF_GUESTS && old(timers).timers@[i].enabled
                ==> old(timers).timers@[i].mtime + HYPERVISOR_TIMER_TICK <= u64::MAX,
    ensures
        r.1 == spec_classify_trap(scause),
        r.0 == if spec_classify_trap(scause) is EcallFromVsMode {
            (sepc + 4) as int
        } else {
            sepc as int
        },
        spec_classify_trap(scause) is SupervisorTimerInterrupt ==> {
            &&& forall|i: int|
                0 <= i < MAX_NUMBER_OF_GUESTS ==> final(timers).timers@[i] == spec_tick(
                    old(timers).timers@[i],
                    HYPERVISOR_TIMER_TICK as u64,
                )
            &&& *final(csrs) == spec_timer_interrupt_csrs(
                *old(csrs),
                spec_timer_fired(
                    spec_tick(old(timers).timers@[0], HYPERVISOR_TIMER_TICK as u64),
                ),
            )
            &&& *final(frame) == *old(frame)
        },
        spec_classify_trap(scause) is EcallFromVsMode ==> {
            let ext = old(frame).regs@[17];
            let fid = old(frame).regs@[16];
            let ret = spec_sbi_ret(ext, fid);
            &&& final(frame).regs@ == old(frame).regs@.update(10, ret.error).update(11, ret.value)
            &&& final(frame).fregs == old(frame).fregs
            &&& final(frame).pc == old(frame).pc
            &&& spec_is_set_timer_call(ext, fid) ==> {
                &&& final(timers).timers@ == old(timers).timers@.update(
                    0,
                    spec_set_timer(old(timers).timers@[0], old(frame).regs@[10]),
                )
                &&& *final(csrs) == (HsCsrs { hvip: old(csrs).hvip & !HVIP_VSTIP, ..*old(csrs) })
            }
            &&& !spec_is_set_timer_call(ext, fid) ==> {
                &&& *final(timers) == *old(timers)
                &&& *final(csrs) == *old(csrs)
            }
        },
        !(spec_classify_trap(scause) is SupervisorTimerInterrupt) && !(spec_classify_trap(scause)
            is EcallFromVsMode) ==> {
            &&& *final(frame) == *old(frame)
            &&& *final(csrs) == *old(csrs)
            &&& *final(timers) == *old(timers)
        },
{
    let kind = classify_trap(scause);
    match kind {
        TrapKind::SupervisorTimerInterrupt => {
            handle_timer_interrupt(csrs, timers);
            (sepc, kind)
        },
        TrapKind::EcallFromVsMode => {
            let new_sepc = handle_vs_ecall(frame, timers, csrs, sepc);
            (new_sepc, kind)
        },
        _ => (sepc, kind),
    }
}

/// After HS-mode init the trap vector and the trap-frame address are
/// installed (the latter non-zero), interrupts are globally enabled, and
/// both the timer and the external interrupt enables are on.
pub proof fn lemma_hs_init_establishes_invariants(c: HsCsrs, trap_vector: u64, trap_frame_addr: u64)
    requires
        trap_frame_addr != 0,
    ensures
        spec_hs_init(c, trap_vector, trap_frame_addr).stvec == trap_vector,
        spec_hs_init(c, trap_vector, trap_frame_addr).sscratch != 0,
        spec_hs_init(c, trap_vector, trap_frame_addr).sstatus_sie == true,
        spec_hs_init(c, trap_vector, trap_frame_addr).sie & SIE_SEIE == SIE_SEIE,
        spec_hs_init(c, trap_vector, trap_frame_addr).sie & SIE_STIE == SIE_STIE,
{
    let s = c.sie;
    assert(((s | 0x20u64) | 0x200u64) & 0x200u64 == 0x200u64) by (bit_vector);
    assert(((s | 0x20u64) | 0x200u64) & 0x20u64 == 0x20u64) by (bit_vector);
}

/// Running HS-mode init twice with the same arguments leaves the same
/// register state as running it once: the delegation-register writes,
/// and the whole of init, are idempotent.
pub proof fn lemma_hs_init_idempotent(c: HsCsrs, trap_vector: u64, trap_frame_addr: u64)
    ensures
        spec_hs_init(spec_hs_init(c, trap_vector, trap_frame_addr), trap_vector, trap_frame_addr)
            == spec_hs_init(c, trap_vector, trap_frame_addr),
{
    let s = c.sie;
    let p = c.sip;
    assert((((s | 0x20u64) | 0x200u64) | 0x20u64) | 0x200u64 == (s | 0x20u64) | 0x200u64)
        by (bit_vector);
    assert((p & !0x20u64) & !0x20u64 == p & !0x20u64) by (bit_vector);
}

} // verus!
