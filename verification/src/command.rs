//! The pending module action awaiting operator confirmation.

use vstd::prelude::*;

verus! {

/// A privileged module action staged for explicit confirmation.  `Idle`
/// means nothing is pending; the other variants are bound to a module
/// name held by the session.
#[derive(Clone, Copy, PartialEq, Eq, Structural, Debug)]
pub enum ModuleCommand {
    Idle,
    Load,
    Unload,
    Blacklist,
}

impl ModuleCommand {
    /// Whether no action is pending.
    pub open spec fn is_idle_spec(self) -> bool {
        self == ModuleCommand::Idle
    }

    /// Whether no action is pending.
    pub fn is_idle(self) -> (r: bool)
        ensures
            r == self.is_idle_spec(),
    {
        match self {
            ModuleCommand::Idle => true,
            _ => false,
        }
    }
}

} // verus!
