//! The behaviour states of the character and the clip catalog indexed by them.

use vstd::prelude::*;

verus! {

/// Number of entries of a clip catalog.
pub const CATALOG_SIZE: usize = 4;

/// What the character is doing in the current tick.
#[derive(Clone, Copy, Debug, PartialEq, Eq, Structural)]
pub enum StateCode {
    /// Standing still.
    Idle,
    /// The special action; it lasts until the character moves.
    Special,
    /// Walking.
    Moving,
}

impl StateCode {
    /// The catalog slot that holds the clip of this state.
    pub open spec fn spec_ordinal(self) -> nat {
        match self {
            StateCode::Idle => 1,
            StateCode::Special => 2,
            StateCode::Moving => 3,
        }
    }

    /// The catalog slot that holds the clip of this state.
    pub fn ordinal(self) -> (slot: usize)
        ensures
            slot == self.spec_ordinal(),
            0 < slot < CATALOG_SIZE,
    {
        match self {
            StateCode::Idle => 1,
            StateCode::Special => 2,
            StateCode::Moving => 3,
        }
    }
}

} // verus!
