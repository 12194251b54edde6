//! Per-guest virtual timers.
//!
//! One virtual timer exists per guest. A timer is created disabled, armed
//! by the guest's SBI `set_timer` call, advanced by the host timer
//! interrupt, and considered fired while it is enabled and `mtime` has
//! reached `mtimecmp`. There is no explicit disarm; arming with a new
//! value resets the accumulated time.

use vstd::prelude::*;

use crate::csr::HsCsrs;
use crate::csr::HVIP_VSTIP;
use crate::global_const::HYPERVISOR_TIMER_TICK;
use crate::global_const::MAX_NUMBER_OF_GUESTS;

verus! {

/// A single guest's virtual timer.
#[derive(Debug, Copy, Clone, PartialEq, Eq, Structural)]
pub struct VmTimer {
    pub enabled: bool,
    pub mtime: u64,
    pub mtimecmp: u64,
}

/// The state of a freshly created (disarmed) timer.
pub open spec fn spec_new_timer() -> VmTimer {
    VmTimer { enabled: false, mtime: 0, mtimecmp: 0 }
}

/// The state of a timer after `amount` cycles elapse: an enabled timer
/// accumulates time, a disabled one does not move.
pub open spec fn spec_tick(t: VmTimer, amount: u64) -> VmTimer {
    if t.enabled {
        VmTimer { mtime: (t.mtime + amount) as u64, ..t }
    } else {
        t
    }
}

/// The state of a timer after it is armed with deadline `amount`.
pub open spec fn spec_set_timer(t: VmTimer, amount: u64) -> VmTimer {
    VmTimer { enabled: true, mtime: 0, mtimecmp: amount }
}

/// A timer fires while it is enabled and its accumulated time has
/// reached its deadline.
pub open spec fn spec_timer_fired(t: VmTimer) -> bool {
    t.enabled && t.mtime >= t.mtimecmp
}

impl VmTimer {
    /// Create a disarmed timer.
    pub fn new() -> (t: VmTimer)
        ensures
            t == spec_new_timer(),
    {
        VmTimer { enabled: false, mtime: 0, mtimecmp: 0 }
    }

    /// Advance the timer by `amount` cycles if it is enabled.
    pub fn tick(&mut self, amount: u64)
        requires
            old(self).enabled ==> old(self).mtime + amount <= u64::MAX,
        ensures
            *final(self) == spec_tick(*old(self), amount),
    {
        if self.enabled {
            self.mtime = self.mtime + amount;
        }
    }

    /// Arm the timer: enable it, set its deadline, and reset the
    /// accumulated time.
    pub fn set_timer(&mut self, amount: u64)
        ensures
            *final(self) == spec_set_timer(*old(self), amount),
    {
        self.enabled = true;
        self.mtimecmp = amount;
        self.mtime = 0;
    }
}

/// The virtual timer array: one timer per guest slot.
#[derive(Debug, Copy, Clone)]
pub struct VmTimers {
    pub timers: [VmTimer; MAX_NUMBER_OF_GUESTS],
}

impl VmTimers {
    /// Create the array with every timer disarmed.
    pub fn new() -> (r: VmTimers)
        ensures
            r.timers@.len() == MAX_NUMBER_OF_GUESTS,
            forall|i: int|
                0 <= i < MAX_NUMBER_OF_GUESTS ==> r.timers@[i] == spec_new_timer(),
    {
        let blank = VmTimer::new();
        VmTimers { timers: [blank; MAX_NUMBER_OF_GUESTS] }
    }

    /// Advance every guest's timer by `amount` cycles.
    pub fn tick_vm_timers(&mut self, amount: usize)
        requires
            forall|i: int|
                0 <= i < MAX_NUMBER_OF_GUESTS && old(self).timers@[i].enabled
                    ==> old(self).timers@[i].mtime + amount <= u64::MAX,
        ensures
            forall|i: int|
                0 <= i < MAX_NUMBER_OF_GUESTS
                    ==> final(self).timers@[i] == spec_tick(
                        old(self).timers@[i],
                        amount as u64,
                    ),
    {
        let mut i: usize = 0;
        while i < MAX_NUMBER_OF_GUESTS
            invariant
                i <= MAX_NUMBER_OF_GUESTS,
                forall|j: int|
                    0 <= j < MAX_NUMBER_OF_GUESTS && old(self).timers@[j].enabled
                        ==> old(self).timers@[j].mtime + amount <= u64::MAX,
                forall|j: int|
                    i <= j < MAX_NUMBER_OF_GUESTS
                        ==> self.timers@[j] == old(self).timers@[j],
                forall|j: int|
                    0 <= j < i
                        ==> self.timers@[j] == spec_tick(
                            old(self).timers@[j],
                            amount as u64,
                        ),
            decreases MAX_NUMBER_OF_GUESTS - i,
        {
            let mut t = self.timers[i];
            t.tick(amount as u64);
            self.timers[i] = t;
            i = i + 1;
        }
    }

    /// Mark, per guest slot, whether that guest's timer has fired.
    pub fn check_timers(&self) -> (r: [bool; MAX_NUMBER_OF_GUESTS])
        ensures
            forall|i: int|
                0 <= i < MAX_NUMBER_OF_GUESTS
                    ==> r@[i] == spec_timer_fired(self.timers@[i]),
    {
        let mut vm_timer_list: [bool; MAX_NUMBER_OF_GUESTS] = [false; MAX_NUMBER_OF_GUESTS];
        let mut i: usize = 0;
        while i < MAX_NUMBER_OF_GUESTS
            invariant
                i <= MAX_NUMBER_OF_GUESTS,
                vm_timer_list@.len() == MAX_NUMBER_OF_GUESTS,
                forall|j: int|
                    0 <= j < i
                        ==> vm_timer_list@[j] == spec_timer_fired(self.timers@[j]),
            decreases MAX_NUMBER_OF_GUESTS - i,
        {
            let vmtimer = self.timers[i];
            if vmtimer.enabled {
                if vmtimer.mtime >= vmtimer.mtimecmp {
                    vm_timer_list[i] = true;
                } else {
                    vm_timer_list[i] = false;
                }
            } else {
                vm_timer_list[i] = false;
            }
            i = i + 1;
        }
        vm_timer_list
    }
}

/// The arming side of one guest's virtual timer, as the guest's SBI
/// timer extension drives it.
#[derive(Debug, Clone, Copy, PartialEq, Eq, Structural)]
pub struct TimerHandle {
    pub guest_number: u64,
}

impl TimerHandle {
    /// The handle arming guest `guest_number`'s timer.
    pub fn new(guest_number: u64) -> (r: TimerHandle)
        ensures
            r.guest_number == guest_number,
    {
        TimerHandle { guest_number }
    }

    /// Arm this guest's virtual timer with deadline `stime_value` and
    /// retract any pending virtual timer interrupt.
    pub fn set_timer(&self, timers: &mut VmTimers, csrs: &mut HsCsrs, stime_value: u64)
        requires
            self.guest_number < MAX_NUMBER_OF_GUESTS,
        ensures
            final(timers).timers@ == old(timers).timers@.update(
                self.guest_number as int,
                spec_set_timer(old(timers).timers@[self.guest_number as int], stime_value),
            ),
            *final(csrs) == (HsCsrs { hvip: old(csrs).hvip & !HVIP_VSTIP, ..*old(csrs) }),
    {
        let idx = self.guest_number as usize;
        let mut t = timers.timers[idx];
        t.set_timer(stime_value);
        timers.timers[idx] = t;
        csrs.hvip = csrs.hvip & !HVIP_VSTIP;
    }
}

/// The state of a timer after `n` elapses of `amount` cycles each.
pub open spec fn spec_tick_n(t: VmTimer, amount: u64, n: nat) -> VmTimer
    decreases n,
{
    if n == 0 {
        t
    } else {
        spec_tick(spec_tick_n(t, amount, (n - 1) as nat), amount)
    }
}

/// An enabled timer accumulates exactly `n * amount` cycles over `n`
/// elapses of `amount`, as long as the sum stays representable.
pub proof fn lemma_tick_n_accumulates(t: VmTimer, amount: u64, n: nat)
    requires
        t.enabled,
        t.mtime + n * amount <= u64::MAX,
    ensures
        spec_tick_n(t, amount, n) == (VmTimer { mtime: (t.mtime + n * amount) as u64, ..t }),
    decreases n,
{
    if n == 0 {
        assert(n * amount == 0) by (nonlinear_arith)
            requires
                n == 0,
        ;
    } else {
        assert((n - 1) * amount + amount == n * amount) by (nonlinear_arith);
        assert((n - 1) * amount >= 0) by (nonlinear_arith)
            requires
                n >= 1,
                amount >= 0,
        ;
        lemma_tick_n_accumulates(t, amount, (n - 1) as nat);
    }
}

/// A timer armed with the largest possible deadline does not fire within
/// 2^40 host timer ticks of the configured granularity.
pub proof fn lemma_max_deadline_outlasts_ticks(t: VmTimer, n: nat)
    requires
        n <= 0x100_0000_0000,
    ensures
        !spec_timer_fired(
            spec_tick_n(spec_set_timer(t, u64::MAX), HYPERVISOR_TIMER_TICK as u64, n),
        ),
{
    let armed = spec_set_timer(t, u64::MAX);
    let amount = HYPERVISOR_TIMER_TICK as u64;
    assert(n * (amount as int) <= 0x100_0000_0000 * (amount as int)) by (nonlinear_arith)
        requires
            n <= 0x100_0000_0000,
            amount >= 0,
    ;
    lemma_tick_n_accumulates(armed, amount, n);
}

/// A timer armed with a deadline at or below one elapse fires on the
/// very next elapse: arming resets the accumulated time, so a deadline
/// already covered by the next tick is met at once.
pub proof fn lemma_small_deadline_fires_next_tick(t: VmTimer, v: u64, amount: u64)
    requires
        v <= amount,
    ensures
        spec_timer_fired(spec_tick(spec_set_timer(t, v), amount)),
{
}

/// Arming a timer with the same deadline twice leaves the same state as
/// arming it once and letting zero cycles elapse.
pub proof fn lemma_set_timer_twice_is_set_then_zero_tick(t: VmTimer, v: u64)
    ensures
        spec_set_timer(spec_set_timer(t, v), v) == spec_tick(spec_set_timer(t, v), 0),
{
}

/// Zero elapsed cycles change no timer and fire none that was not
/// already fired.
pub proof fn lemma_tick_zero_changes_nothing(t: VmTimer)
    ensures
        spec_tick(t, 0) == t,
        spec_timer_fired(spec_tick(t, 0)) == spec_timer_fired(t),
{
}

/// An enabled timer's deadline is a non-negative count of cycles.
pub proof fn lemma_timer_deadline_nonnegative(t: VmTimer)
    ensures
        t.enabled ==> t.mtimecmp >= 0,
{
}

/// Exactly one guest slot exists: guest id 0 is within the table, guest
/// id 1 is not.
pub proof fn lemma_guest_id_bounds()
    ensures
        0 < MAX_NUMBER_OF_GUESTS,
        1 >= MAX_NUMBER_OF_GUESTS,
{
}

} // verus!
