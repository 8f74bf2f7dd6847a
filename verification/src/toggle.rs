//! The toggle behavior: a synthetic block whose neighbor reaction always
//! flips its one property bit.
//!
//! Two adjacent toggles reconfigure in response to each other without end, so
//! a mutation next to such a pair drives the neighbor-update propagator into
//! a cycle.  The pair exists to exercise the propagation depth bound: the
//! cascade must stop at the bound instead of looping indefinitely.

use vstd::prelude::*;
use crate::registry::TOGGLE_BASE;

verus! {

/// The toggle state with its bit flipped; any other state is left alone.
pub open spec fn spec_toggle_flip(state: u64) -> u64 {
    if state == TOGGLE_BASE {
        (TOGGLE_BASE + 1) as u64
    } else if state == TOGGLE_BASE + 1 {
        TOGGLE_BASE
    } else {
        state
    }
}

/// The toggle block behavior.
pub struct ToggleBlock;

impl ToggleBlock {
    /// Neighbor reaction: whatever changed next door, ask for the flipped
    /// state.  The reaction itself is pure; the propagator applies the
    /// change.
    pub fn get_state_for_neighbor_update(&self, state: u64) -> (r: u64)
        ensures
            r == spec_toggle_flip(state),
    {
        if state == TOGGLE_BASE {
            TOGGLE_BASE + 1
        } else if state == TOGGLE_BASE + 1 {
            TOGGLE_BASE
        } else {
            state
        }
    }
}

} // verus!
