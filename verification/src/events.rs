//! Threshold-cross events: ephemeral, single-tick messages from the
//! routine layer to the AI-selection policy that swaps routines.

use vstd::prelude::*;

verus! {

/// An agent's distance to its target dropped below a routine's
/// threshold.
#[derive(Clone, Copy, Debug, PartialEq, Eq, Structural)]
pub struct EventDistanceReached {
    pub distance: i64,
    pub parent: u64,
}

/// An agent's distance to its target rose above a routine's threshold.
#[derive(Clone, Copy, Debug, PartialEq, Eq, Structural)]
pub struct EventDistanceExited {
    pub distance: i64,
    pub parent: u64,
}

/// An agent finished a full attack cycle with the target still in
/// range.
#[derive(Clone, Copy, Debug, PartialEq, Eq, Structural)]
pub struct EventAttackFinished {
    pub parent: u64,
}

} // verus!
