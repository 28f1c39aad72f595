//! The two-mode text-input state machine.

use vstd::prelude::*;

verus! {

/// Whether free-text entry is active, and which purpose it serves.
/// `Idle` is the resting state; `Search` filters the module list and
/// `Load` names a module to load.  The up/down keys cycle strictly
/// between the two active sub-modes.
#[derive(Clone, Copy, PartialEq, Eq, Structural, Debug)]
pub enum InputMode {
    Idle,
    Search,
    Load,
}

impl InputMode {
    /// Whether text entry is active.
    pub open spec fn is_active_spec(self) -> bool {
        self != InputMode::Idle
    }

    /// The sub-mode reached by the "up" key.  The step that would fall
    /// off the front of the order lands on the resting state and is
    /// coerced back to the last active sub-mode, so the active sub-modes
    /// swap: up from `Search` wraps to `Load`, up from `Load` reaches
    /// `Search`.
    pub open spec fn cycle_up_spec(self) -> InputMode {
        match self {
            InputMode::Idle => InputMode::Load,
            InputMode::Search => InputMode::Load,
            InputMode::Load => InputMode::Search,
        }
    }

    /// The sub-mode reached by the "down" key: down from `Search`
    /// reaches `Load`, down from the last active sub-mode wraps to the
    /// first one, skipping the resting state.
    pub open spec fn cycle_down_spec(self) -> InputMode {
        match self {
            InputMode::Idle => InputMode::Search,
            InputMode::Search => InputMode::Load,
            InputMode::Load => InputMode::Search,
        }
    }

    /// Whether text entry is active.
    pub fn is_active(self) -> (r: bool)
        ensures
            r == self.is_active_spec(),
    {
        match self {
            InputMode::Idle => false,
            _ => true,
        }
    }

    /// Switch to the previous active sub-mode, with wraparound.
    pub fn cycle_up(self) -> (r: InputMode)
        ensures
            r == self.cycle_up_spec(),
    {
        match self {
            InputMode::Idle => InputMode::Load,
            InputMode::Search => InputMode::Load,
            InputMode::Load => InputMode::Search,
        }
    }

    /// Switch to the next active sub-mode, with wraparound.
    pub fn cycle_down(self) -> (r: InputMode)
        ensures
            r == self.cycle_down_spec(),
    {
        match self {
            InputMode::Idle => InputMode::Search,
            InputMode::Search => InputMode::Load,
            InputMode::Load => InputMode::Search,
        }
    }
}

/// Law of the active sub-mode cycle: starting from an active sub-mode,
/// cycling in either direction never reaches the resting state, and the
/// cycle wraps at both ends (down from the last active sub-mode reaches
/// the first, up from the first reaches the last).
pub proof fn lemma_input_mode_cycle(m: InputMode)
    requires
        m.is_active_spec(),
    ensures
        m.cycle_up_spec().is_active_spec(),
        m.cycle_down_spec().is_active_spec(),
        InputMode::Load.cycle_down_spec() == InputMode::Search,
        InputMode::Search.cycle_up_spec() == InputMode::Load,
        m.cycle_up_spec().cycle_down_spec() == m,
        m.cycle_down_spec().cycle_up_spec() == m,
{
}

} // verus!
