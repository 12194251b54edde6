//! Compile-time configuration of the hypervisor core.

use vstd::prelude::*;

verus! {

/// Capacity of the guest table and of the virtual timer array.
/// A guest id handed to any core operation must be below this bound.
pub const MAX_NUMBER_OF_GUESTS: usize = 1;

/// Cycles added to every enabled virtual timer on each host timer interrupt.
pub const HYPERVISOR_TIMER_TICK: usize = 100_000;

} // verus!
