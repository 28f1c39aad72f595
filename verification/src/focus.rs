//! The focus cycle over the five panels of the dashboard.

use vstd::prelude::*;

verus! {

/// The panels of the dashboard, in their fixed cycle order.  Exactly one
/// of them holds the focus at any time; left/right navigation steps
/// through this order with wraparound at both ends.
#[derive(Clone, Copy, PartialEq, Eq, Structural, Debug)]
pub enum Blocks {
    UserInput,
    KernelInfo,
    ModuleTable,
    ModuleInfo,
    Activities,
}

impl Blocks {
    /// The panel one step forward in the cycle order.
    pub open spec fn next_spec(self) -> Blocks {
        match self {
            Blocks::UserInput => Blocks::KernelInfo,
            Blocks::KernelInfo => Blocks::ModuleTable,
            Blocks::ModuleTable => Blocks::ModuleInfo,
            Blocks::ModuleInfo => Blocks::Activities,
            Blocks::Activities => Blocks::UserInput,
        }
    }

    /// The panel one step backward in the cycle order.
    pub open spec fn prev_spec(self) -> Blocks {
        match self {
            Blocks::UserInput => Blocks::Activities,
            Blocks::KernelInfo => Blocks::UserInput,
            Blocks::ModuleTable => Blocks::KernelInfo,
            Blocks::ModuleInfo => Blocks::ModuleTable,
            Blocks::Activities => Blocks::ModuleInfo,
        }
    }

    /// Step forward through the panel cycle, wrapping from the last
    /// panel back to the first.
    pub fn next(self) -> (r: Blocks)
        ensures
            r == self.next_spec(),
    {
        match self {
            Blocks::UserInput => Blocks::KernelInfo,
            Blocks::KernelInfo => Blocks::ModuleTable,
            Blocks::ModuleTable => Blocks::ModuleInfo,
            Blocks::ModuleInfo => Blocks::Activities,
            Blocks::Activities => Blocks::UserInput,
        }
    }

    /// Step backward through the panel cycle, wrapping from the first
    /// panel back to the last.
    pub fn prev(self) -> (r: Blocks)
        ensures
            r == self.prev_spec(),
    {
        match self {
            Blocks::UserInput => Blocks::Activities,
            Blocks::KernelInfo => Blocks::UserInput,
            Blocks::ModuleTable => Blocks::KernelInfo,
            Blocks::ModuleInfo => Blocks::ModuleTable,
            Blocks::Activities => Blocks::ModuleInfo,
        }
    }
}

/// Cyclic law of the focus order: stepping forward then backward, or
/// backward then forward, returns to the starting panel.
pub proof fn lemma_focus_cycle_roundtrip(b: Blocks)
    ensures
        b.next_spec().prev_spec() == b,
        b.prev_spec().next_spec() == b,
{
}

} // verus!
