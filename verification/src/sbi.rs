//! Virtual SBI: the hypervisor's side of the supervisor binary interface
//! a guest kernel reaches with `ecall` from VS-mode.
//!
//! A call carries an extension id in `a7`, a function id in `a6` and up
//! to six arguments in `a0..a5`; it yields an `(error, value)` pair that
//! the dispatcher writes back into the guest's `a0` and `a1`. The error
//! is a signed 64-bit word in two's complement, held here in the same
//! `u64` shape as the register that carries it.

use vstd::prelude::*;

use crate::csr::HsCsrs;
use crate::csr::HVIP_VSTIP;
use crate::global_const::MAX_NUMBER_OF_GUESTS;
use crate::timer::spec_set_timer;
use crate::timer::VmTimers;

verus! {

/// Extension id of the SBI timer extension: "TIME" in ASCII.
pub const SBI_EXT_TIME: u64 = 0x54494D45;

/// Function id of `set_timer` within the timer extension.
pub const SBI_FID_SET_TIMER: u64 = 0;

/// SBI error code: success.
pub const SBI_SUCCESS: u64 = 0;

/// SBI error code -1: the call failed.
pub const SBI_ERR_FAILED: u64 = u64::MAX;

/// SBI error code -2: the extension or function is not supported.
pub const SBI_ERR_NOT_SUPPORTED: u64 = u64::MAX - 1;

/// SBI error code -3: an argument is invalid.
pub const SBI_ERR_INVALID_PARAM: u64 = u64::MAX - 2;

/// SBI error code -5: an address argument is invalid.
pub const SBI_ERR_INVALID_ADDRESS: u64 = u64::MAX - 4;

/// The `(error, value)` pair an SBI call returns to the guest.
#[derive(Debug, Clone, Copy, PartialEq, Eq, Structural)]
pub struct SbiRet {
    pub error: u64,
    pub value: u64,
}

/// Whether `(ext, fid)` names the one implemented call: `set_timer` of
/// the timer extension.
pub open spec fn spec_is_set_timer_call(ext: u64, fid: u64) -> bool {
    ext == SBI_EXT_TIME && fid == SBI_FID_SET_TIMER
}

/// The `(error, value)` pair an ecall with ids `(ext, fid)` yields:
/// success for the implemented timer call, "not supported" for anything
/// else.
pub open spec fn spec_sbi_ret(ext: u64, fid: u64) -> SbiRet {
    if spec_is_set_timer_call(ext, fid) {
        SbiRet { error: SBI_SUCCESS, value: 0 }
    } else {
        SbiRet { error: SBI_ERR_NOT_SUPPORTED, value: 0 }
    }
}

/// The virtual SBI endpoint of one guest. It is built per call and holds
/// nothing beyond the guest id.
#[derive(Debug, Clone, Copy, PartialEq, Eq, Structural)]
pub struct VmSBI {
    pub guest_number: usize,
}

impl VmSBI {
    /// The SBI endpoint serving guest `guest_number`.
    pub fn with_guest_number(guest_number: usize) -> (r: VmSBI)
        ensures
            r.guest_number == guest_number,
    {
        VmSBI { guest_number }
    }

    /// Serve one ecall from this guest. A `set_timer` call arms the
    /// guest's virtual timer with `params[0]` and retracts any pending
    /// virtual timer interrupt; every other call is rejected as not
    /// supported and changes nothing.
    pub fn handle_ecall(
        &self,
        ext: u64,
        fid: u64,
        params: [u64; 6],
        timers: &mut VmTimers,
        csrs: &mut HsCsrs,
    ) -> (r: SbiRet)
        requires
            self.guest_number < MAX_NUMBER_OF_GUESTS,
        ensures
            r == spec_sbi_ret(ext, fid),
            spec_is_set_timer_call(ext, fid) ==> {
                &&& final(timers).timers@ == old(timers).timers@.update(
                    self.guest_number as int,
                    spec_set_timer(old(timers).timers@[self.guest_number as int], params@[0]),
                )
                &&& *final(csrs) == (HsCsrs { hvip: old(csrs).hvip & !HVIP_VSTIP, ..*old(csrs) })
            },
            !spec_is_set_timer_call(ext, fid) ==> {
                &&& *final(timers) == *old(timers)
                &&& *final(csrs) == *old(csrs)
            },
    {
        if ext == SBI_EXT_TIME && fid == SBI_FID_SET_TIMER {
            let mut t = timers.timers[self.guest_number];
            t.set_timer(params[0]);
            timers.timers[self.guest_number] = t;
            csrs.hvip = csrs.hvip & !HVIP_VSTIP;
            SbiRet { error: SBI_SUCCESS, value: 0 }
        } else {
            SbiRet { error: SBI_ERR_NOT_SUPPORTED, value: 0 }
        }
    }
}

} // verus!
