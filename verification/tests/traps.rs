use rvvisor::csr::CpuMode;
use rvvisor::csr::HsCsrs;
use rvvisor::csr::VirtualizationMode;
use rvvisor::global_const::HYPERVISOR_TIMER_TICK;
use rvvisor::hypervisor::classify_trap;
use rvvisor::hypervisor::route_external_interrupt;
use rvvisor::hypervisor::rust_strap_handler;
use rvvisor::hypervisor::ExternalIntSource;
use rvvisor::hypervisor::TrapFrame;
use rvvisor::hypervisor::TrapKind;
use rvvisor::hypervisor::TRAP_FRAME_FREGS_OFFSET;
use rvvisor::hypervisor::TRAP_FRAME_PC_OFFSET;
use rvvisor::hypervisor::TRAP_FRAME_REGS_OFFSET;
use rvvisor::hypervisor::TRAP_FRAME_SIZE;
use rvvisor::sbi::SBI_ERR_NOT_SUPPORTED;
use rvvisor::sbi::SBI_SUCCESS;
use rvvisor::timer::VmTimer;
use rvvisor::timer::VmTimers;

const ASYNC: u64 = 1 << 63;

fn hs_csrs() -> HsCsrs {
    HsCsrs {
        hedeleg: 0xb109,
        hideleg: 0x444,
        hvip: 0,
        hgatp: 0x9000_0000_0000_1234,
        hstatus_spv: VirtualizationMode::Guest,
        stvec: 0x8060_0000,
        sscratch: 0x8800_0000,
        sepc: 0,
        sie: 0x220,
        sip: 0x20,
        sstatus_sie: true,
        sstatus_spp: CpuMode::S,
    }
}

fn frame_with_ecall(ext: u64, fid: u64, arg0: u64) -> TrapFrame {
    let mut frame = TrapFrame::new();
    frame.regs[17] = ext;
    frame.regs[16] = fid;
    frame.regs[10] = arg0;
    frame
}

#[test]
fn classify_covers_the_dispatch_table() {
    assert_eq!(
        classify_trap(ASYNC | 9),
        TrapKind::SupervisorExternalInterrupt
    );
    assert_eq!(classify_trap(ASYNC | 5), TrapKind::SupervisorTimerInterrupt);
    assert_eq!(classify_trap(ASYNC | 7), TrapKind::UnknownInterrupt(7));
    assert_eq!(classify_trap(8), TrapKind::EcallFromUOrVuMode);
    assert_eq!(classify_trap(10), TrapKind::EcallFromVsMode);
    assert_eq!(classify_trap(21), TrapKind::LoadGuestPageFault);
    assert_eq!(classify_trap(23), TrapKind::StoreAmoGuestPageFault);
    assert_eq!(classify_trap(2), TrapKind::UnknownException(2));
}

#[test]
fn external_interrupts_route_by_source_id() {
    for id in 1..=8u32 {
        assert_eq!(route_external_interrupt(id), ExternalIntSource::Virtio(id));
    }
    assert_eq!(route_external_interrupt(10), ExternalIntSource::Uart);
    assert_eq!(route_external_interrupt(0), ExternalIntSource::Unhandled(0));
    assert_eq!(route_external_interrupt(9), ExternalIntSource::Unhandled(9));
    assert_eq!(
        route_external_interrupt(11),
        ExternalIntSource::Unhandled(11)
    );
}

#[test]
fn uart_interrupt_reaches_the_uart_handler() {
    // a claim of source id 10 is handed to the UART and the same id is
    // completed afterwards; the dispatcher itself only asks the caller
    // to claim
    let mut frame = TrapFrame::new();
    let mut csrs = hs_csrs();
    let mut timers = VmTimers::new();
    let (pc, kind) = rust_strap_handler(
        0x8020_0100,
        0,
        ASYNC | 9,
        0,
        &mut frame,
        &mut csrs,
        &mut timers,
    );
    assert_eq!(pc, 0x8020_0100);
    assert_eq!(kind, TrapKind::SupervisorExternalInterrupt);
    let claimed = 10u32;
    let mut uart_serviced = 0;
    match route_external_interrupt(claimed) {
        ExternalIntSource::Uart => uart_serviced += 1,
        _ => panic!("uart interrupt routed elsewhere"),
    }
    assert_eq!(uart_serviced, 1);
}

#[test]
fn timer_interrupt_acknowledges_and_ticks() {
    let mut frame = TrapFrame::new();
    let mut csrs = hs_csrs();
    let mut timers = VmTimers::new();
    let mut armed = VmTimer::new();
    armed.set_timer(HYPERVISOR_TIMER_TICK as u64);
    timers.timers[0] = armed;

    let (pc, kind) = rust_strap_handler(
        0x8020_0100,
        0,
        ASYNC | 5,
        0,
        &mut frame,
        &mut csrs,
        &mut timers,
    );
    assert_eq!(pc, 0x8020_0100);
    assert_eq!(kind, TrapKind::SupervisorTimerInterrupt);
    // one-shot acknowledgement
    assert_eq!(csrs.sip & 0x20, 0);
    assert_eq!(csrs.sie & 0x20, 0);
    // one tick reached the deadline: the virtual timer interrupt is
    // injected
    assert_eq!(timers.timers[0].mtime, HYPERVISOR_TIMER_TICK as u64);
    assert_eq!(csrs.hvip & 0x40, 0x40);
}

#[test]
fn virtual_timer_fires_after_enough_ticks() {
    let mut csrs = hs_csrs();
    let mut timers = VmTimers::new();

    // the guest arms one million cycles via its SBI
    let mut frame = frame_with_ecall(0x54494D45, 0, 1_000_000);
    rust_strap_handler(0x8020_0100, 0, 10, 0, &mut frame, &mut csrs, &mut timers);
    assert!(timers.timers[0].enabled);

    // host timer interrupts tick the virtual timer by the configured
    // granularity until the deadline passes
    let needed = 1_000_000 / HYPERVISOR_TIMER_TICK as u64;
    for step in 1..=10u64 {
        let mut f = TrapFrame::new();
        rust_strap_handler(0x8020_0100, 0, ASYNC | 5, 0, &mut f, &mut csrs, &mut timers);
        if step < needed {
            assert_eq!(csrs.hvip & 0x40, 0, "injected too early at step {}", step);
        } else {
            assert_eq!(csrs.hvip & 0x40, 0x40, "not injected at step {}", step);
        }
    }
}

#[test]
fn guest_page_fault_parks_without_progress() {
    let mut frame = frame_with_ecall(0x54494D45, 0, 1);
    let before = frame;
    let mut csrs = hs_csrs();
    let csrs_before = csrs;
    let mut timers = VmTimers::new();
    let (pc, kind) = rust_strap_handler(
        0x8020_0200,
        0xdead_0000,
        21,
        0,
        &mut frame,
        &mut csrs,
        &mut timers,
    );
    // the PC does not advance and nothing is touched; the caller dumps
    // the trap and parks
    assert_eq!(pc, 0x8020_0200);
    assert_eq!(kind, TrapKind::LoadGuestPageFault);
    assert_eq!(csrs, csrs_before);
    assert_eq!(frame.regs, before.regs);
    assert_eq!(frame.pc, before.pc);
}

#[test]
fn store_fault_and_user_ecall_park() {
    let mut frame = TrapFrame::new();
    let mut csrs = hs_csrs();
    let mut timers = VmTimers::new();
    let (pc, kind) = rust_strap_handler(0x1000, 0, 23, 0, &mut frame, &mut csrs, &mut timers);
    assert_eq!((pc, kind), (0x1000, TrapKind::StoreAmoGuestPageFault));
    let (pc, kind) = rust_strap_handler(0x1000, 0, 8, 0, &mut frame, &mut csrs, &mut timers);
    assert_eq!((pc, kind), (0x1000, TrapKind::EcallFromUOrVuMode));
}

#[test]
fn unknown_causes_are_fatal() {
    let mut frame = TrapFrame::new();
    let mut csrs = hs_csrs();
    let mut timers = VmTimers::new();
    let (_, kind) = rust_strap_handler(0, 0, ASYNC | 3, 0, &mut frame, &mut csrs, &mut timers);
    assert_eq!(kind, TrapKind::UnknownInterrupt(3));
    let (_, kind) = rust_strap_handler(0, 0, 4, 0, &mut frame, &mut csrs, &mut timers);
    assert_eq!(kind, TrapKind::UnknownException(4));
}

#[test]
fn vs_ecall_returns_through_the_frame() {
    let mut frame = frame_with_ecall(0x54494D45, 0, 250_000);
    let mut csrs = hs_csrs();
    let mut timers = VmTimers::new();
    let (pc, kind) = rust_strap_handler(
        0x8020_0300,
        0,
        10,
        0,
        &mut frame,
        &mut csrs,
        &mut timers,
    );
    assert_eq!(kind, TrapKind::EcallFromVsMode);
    // the PC advances past the ecall instruction
    assert_eq!(pc, 0x8020_0300 + 4);
    // (error, value) land in a0 and a1
    assert_eq!(frame.regs[10], SBI_SUCCESS);
    assert_eq!(frame.regs[11], 0);
    // the other registers are untouched
    assert_eq!(frame.regs[17], 0x54494D45);
    assert_eq!(frame.regs[16], 0);
    assert_eq!(frame.regs[12], 0);
}

#[test]
fn unknown_sbi_extension_is_rejected() {
    let mut frame = frame_with_ecall(0xDEADBEEF, 0, 0);
    let mut csrs = hs_csrs();
    let mut timers = VmTimers::new();
    let timers_before = timers;
    let (pc, _) = rust_strap_handler(0x8020_0300, 0, 10, 0, &mut frame, &mut csrs, &mut timers);
    assert_eq!(pc, 0x8020_0304);
    assert_eq!(frame.regs[10], SBI_ERR_NOT_SUPPORTED);
    assert_eq!(frame.regs[10], (-2i64) as u64);
    assert_eq!(frame.regs[11], 0);
    // no timer was armed
    assert_eq!(timers.timers[0], timers_before.timers[0]);
}

#[test]
fn trap_frame_layout_matches_the_assembly_contract() {
    assert_eq!(TRAP_FRAME_REGS_OFFSET, 0);
    assert_eq!(TRAP_FRAME_FREGS_OFFSET, 256);
    assert_eq!(TRAP_FRAME_PC_OFFSET, 512);
    assert_eq!(TRAP_FRAME_SIZE, 520);
    assert_eq!(std::mem::size_of::<TrapFrame>(), 520);
}
