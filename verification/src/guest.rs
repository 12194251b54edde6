//! The guest descriptor.
//!
//! A guest is described by its name, the root of its second-stage
//! (guest-physical to host-physical) address translation, and the entry
//! program counter set once its kernel image has been loaded. Building
//! the second-stage page table and copying the image into guest memory
//! are the collaborators' work; the descriptor receives their results as
//! plain values.

use vstd::prelude::*;

verus! {

/// Descriptor of one guest kernel.
#[derive(Debug)]
pub struct Guest {
    /// Human-readable name, used only for diagnostics.
    pub name: String,
    /// The `hgatp` value rooting the guest's second-stage translation.
    pub hgatp: u64,
    /// Entry program counter, zero until an image has been loaded.
    pub sepc: u64,
}

impl Guest {
    /// Create a descriptor over an already-built second-stage translation
    /// root; the entry point is not yet known.
    pub fn new(name: String, hgatp: u64) -> (g: Guest)
        ensures
            g.name == name,
            g.hgatp == hgatp,
            g.sepc == 0,
    {
        Guest { name, hgatp, sepc: 0 }
    }

    /// Record the entry program counter that the image load produced.
    pub fn set_entry_point(&mut self, entry: u64)
        ensures
            *final(self) == (Guest { sepc: entry, ..*old(self) }),
    {
        self.sepc = entry;
    }
}

} // verus!
