use rvvisor::csr::CpuMode;
use rvvisor::csr::HsCsrs;
use rvvisor::csr::MachineCsrs;
use rvvisor::csr::PreviousMode;
use rvvisor::csr::VirtualizationMode;
use rvvisor::csr::previous_mode;
use rvvisor::guest::Guest;
use rvvisor::hypervisor;
use rvvisor::mkernel;
use rvvisor::mkernel::HvError;

fn machine_csrs_at_reset() -> MachineCsrs {
    MachineCsrs {
        medeleg: 0,
        mideleg: 0,
        misa: 0x141101,
        mtvec: 0,
        satp: 0x1234,
        mepc: 0,
        mstatus_mpp: CpuMode::M,
        mstatus_mpv: VirtualizationMode::Host,
        pmpcfg0: 0,
        pmpaddr0: 0,
        misa_h_supported: true,
    }
}

fn hs_csrs_at_entry() -> HsCsrs {
    HsCsrs {
        hedeleg: 0,
        hideleg: 0,
        hvip: 0x40,
        hgatp: 0,
        hstatus_spv: VirtualizationMode::Host,
        stvec: 0,
        sscratch: 0,
        sepc: 0,
        sie: 0,
        sip: 0x20,
        sstatus_sie: false,
        sstatus_spp: CpuMode::U,
    }
}

#[test]
fn m_init_programs_delegation_and_misa() {
    let mut csrs = machine_csrs_at_reset();
    let r = mkernel::init(&mut csrs, 0x8020_0000);
    assert!(r.is_ok());
    // all synchronous exceptions but the hypervisor ecall
    assert_eq!(csrs.medeleg, 0xffffff ^ 0x200);
    assert_eq!(csrs.medeleg & 0x200, 0);
    // the three supervisor interrupts
    assert_eq!(csrs.mideleg, 0x200 | 0x20 | 0x2);
    // the hypervisor extension
    assert_eq!(csrs.misa & 0x80, 0x80);
    assert_eq!(csrs.mtvec, 0x8020_0000);
    assert_eq!(csrs.satp, 0);
}

#[test]
fn m_init_without_h_extension_fails() {
    let mut csrs = machine_csrs_at_reset();
    csrs.misa_h_supported = false;
    let r = mkernel::init(&mut csrs, 0x8020_0000);
    assert_eq!(r, Err(HvError::NoHypervisorExtension));
    // the misa write did not stick
    assert_eq!(csrs.misa & 0x80, 0);
    // the failure comes before the trap vector is installed
    assert_eq!(csrs.mtvec, 0);
}

#[test]
fn m_init_twice_leaves_identical_state() {
    let mut once = machine_csrs_at_reset();
    mkernel::init(&mut once, 0x8020_0000).unwrap();
    let mut twice = once;
    mkernel::init(&mut twice, 0x8020_0000).unwrap();
    assert_eq!(once, twice);
}

#[test]
fn switch_to_hypervisor_stages_the_mret() {
    let mut csrs = machine_csrs_at_reset();
    mkernel::switch_to_hypervisor(&mut csrs, 0x8040_0000);
    assert_eq!(csrs.mstatus_mpp, CpuMode::S);
    assert_eq!(csrs.mstatus_mpv, VirtualizationMode::Host);
    assert_eq!(csrs.mepc, 0x8040_0000);
    assert_eq!(csrs.pmpcfg0, 31);
    assert_eq!(csrs.pmpaddr0, (1u64 << 55) - 1);
}

#[test]
fn m_entrypoint_runs_init_then_switch() {
    let mut csrs = machine_csrs_at_reset();
    let r = mkernel::rust_m_entrypoint(&mut csrs, 0x8020_0000, 0x8040_0000);
    assert!(r.is_ok());
    assert_eq!(csrs.medeleg, 0xfffdff);
    assert_eq!(csrs.mideleg, 0x222);
    assert_eq!(csrs.mepc, 0x8040_0000);
    assert_eq!(csrs.mstatus_mpp, CpuMode::S);
}

#[test]
fn hs_init_programs_delegation_vector_and_interrupts() {
    let mut csrs = hs_csrs_at_entry();
    hypervisor::init(&mut csrs, 0x8060_0000, 0x8800_0000);
    // misaligned fetch, breakpoint, U/VU ecall, and the three page faults
    assert_eq!(csrs.hedeleg, 0x1 | 0x8 | 0x100 | 0x1000 | 0x2000 | 0x8000);
    // the three virtual interrupts
    assert_eq!(csrs.hideleg, 0x400 | 0x40 | 0x4);
    assert_eq!(csrs.hvip, 0);
    // supervisor timer no longer pending
    assert_eq!(csrs.sip & 0x20, 0);
    assert_eq!(csrs.stvec, 0x8060_0000);
    assert_ne!(csrs.sscratch, 0);
    assert_eq!(csrs.sscratch, 0x8800_0000);
    assert!(csrs.sstatus_sie);
    assert_eq!(csrs.sie & 0x200, 0x200);
    assert_eq!(csrs.sie & 0x20, 0x20);
}

#[test]
fn hs_init_twice_leaves_identical_state() {
    let mut once = hs_csrs_at_entry();
    hypervisor::init(&mut once, 0x8060_0000, 0x8800_0000);
    let mut twice = once;
    hypervisor::init(&mut twice, 0x8060_0000, 0x8800_0000);
    assert_eq!(once, twice);
}

#[test]
fn enable_interrupt_sets_enables() {
    let mut csrs = hs_csrs_at_entry();
    hypervisor::enable_interrupt(&mut csrs);
    assert_eq!(csrs.sie & 0x20, 0x20);
    assert_eq!(csrs.sie & 0x200, 0x200);
    assert!(csrs.sstatus_sie);
}

#[test]
fn switch_to_guest_stages_the_sret() {
    let mut csrs = hs_csrs_at_entry();
    let mut guest = Guest::new(String::from("guest01"), 0x9000_0000_0000_1234);
    guest.set_entry_point(0x8020_0000);
    hypervisor::switch_to_guest(&mut csrs, &guest);
    assert_eq!(csrs.hgatp, 0x9000_0000_0000_1234);
    assert_eq!(csrs.hstatus_spv, VirtualizationMode::Guest);
    assert_eq!(csrs.sstatus_spp, CpuMode::S);
    assert_eq!(csrs.sepc, 0x8020_0000);
}

#[test]
fn cold_boot_reaches_first_sret() {
    // machine entry
    let mut mcsrs = machine_csrs_at_reset();
    let booted = mkernel::rust_m_entrypoint(&mut mcsrs, 0x8020_0000, 0x8040_0000);
    assert!(booted.is_ok());
    assert_eq!(mcsrs.mstatus_mpp, CpuMode::S);
    assert_eq!(mcsrs.mepc, 0x8040_0000);

    // hypervisor entry, guest bring-up, first switch
    let mut hcsrs = hs_csrs_at_entry();
    let mut guest = Guest::new(String::from("guest01"), 0x9000_0000_0000_1234);
    guest.set_entry_point(0x8020_0000);
    hypervisor::rust_hypervisor_entrypoint(&mut hcsrs, 0x8060_0000, 0x8800_0000, &guest);

    // ready to retire the first sret into the guest
    assert_eq!(hcsrs.stvec, 0x8060_0000);
    assert_ne!(hcsrs.sscratch, 0);
    assert!(hcsrs.sstatus_sie);
    assert_eq!(hcsrs.hgatp, 0x9000_0000_0000_1234);
    assert_eq!(hcsrs.hstatus_spv, VirtualizationMode::Guest);
    assert_eq!(hcsrs.sstatus_spp, CpuMode::S);
    assert_eq!(hcsrs.sepc, 0x8020_0000);
}

#[test]
fn previous_mode_decodes_all_pairs() {
    assert_eq!(
        previous_mode(VirtualizationMode::Host, CpuMode::U),
        Some(PreviousMode::UMode)
    );
    assert_eq!(
        previous_mode(VirtualizationMode::Host, CpuMode::S),
        Some(PreviousMode::HsMode)
    );
    assert_eq!(
        previous_mode(VirtualizationMode::Guest, CpuMode::U),
        Some(PreviousMode::VuMode)
    );
    assert_eq!(
        previous_mode(VirtualizationMode::Guest, CpuMode::S),
        Some(PreviousMode::VsMode)
    );
    assert_eq!(
        previous_mode(VirtualizationMode::Host, CpuMode::M),
        Some(PreviousMode::MMode)
    );
    assert_eq!(previous_mode(VirtualizationMode::Guest, CpuMode::M), None);
}
