//! Core of a minimal type-1 hypervisor for RISC-V 64 using the hardware
//! hypervisor extension.
//!
//! The crate models the control/status registers (CSRs) the hypervisor
//! programs as plain data, and verifies the state transformations the
//! hypervisor performs: the machine-mode and supervisor-mode bootstrap,
//! the guest switch, the trap dispatcher, the virtual SBI, and the
//! per-guest virtual timers. The surrounding program performs the actual
//! privileged instructions, device I/O and logging, and hands the results
//! to this library as plain values.

pub mod csr;
pub mod global_const;
pub mod guest;
pub mod hypervisor;
pub mod mkernel;
pub mod sbi;
pub mod timer;
