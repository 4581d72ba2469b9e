//! The per-frame cap on committed transitions.

use vstd::prelude::*;

verus! {

/// How many transitions may be committed in one frame, and how many have
/// been so far.
#[derive(Clone, Copy, Debug, PartialEq, Eq, Structural)]
pub struct LODProcessingBudget {
    pub max_operations_per_frame: usize,
    pub current_operations: usize,
}

/// The cap that a default budget starts with.
pub const DEFAULT_MAX_OPERATIONS: usize = 50;

impl LODProcessingBudget {
    pub open spec fn has_room(self) -> bool {
        self.current_operations < self.max_operations_per_frame
    }

    pub fn new(max_operations_per_frame: usize) -> (r: LODProcessingBudget)
        ensures
            r == (LODProcessingBudget { max_operations_per_frame, current_operations: 0 }),
    {
        LODProcessingBudget { max_operations_per_frame, current_operations: 0 }
    }

    /// Starts a new frame: nothing consumed yet.
    pub fn reset(&mut self)
        ensures
            *final(self) == (LODProcessingBudget {
                max_operations_per_frame: old(self).max_operations_per_frame,
                current_operations: 0,
            }),
    {
        self.current_operations = 0;
    }

    /// Takes one unit if the cap has not been reached.
    pub fn try_consume(&mut self) -> (r: bool)
        ensures
            r == old(self).has_room(),
            final(self).max_operations_per_frame == old(self).max_operations_per_frame,
            final(self).current_operations == if r {
                old(self).current_operations + 1
            } else {
                old(self).current_operations as int
            },
    {
        if self.current_operations < self.max_operations_per_frame {
            self.current_operations = self.current_operations + 1;
            true
        } else {
            false
        }
    }
}

impl Default for LODProcessingBudget {
    fn default() -> (r: LODProcessingBudget)
        ensures
            r == (LODProcessingBudget { max_operations_per_frame: DEFAULT_MAX_OPERATIONS, current_operations: 0 }),
    {
        LODProcessingBudget { max_operations_per_frame: DEFAULT_MAX_OPERATIONS, current_operations: 0 }
    }
}

/// The tunables of a tracked class: how long a new level must hold before
/// it is committed, in nanoseconds, and how many commits a frame allows.
#[derive(Clone, Copy, Debug, PartialEq, Eq, Structural)]
pub struct LODConfig {
    pub transition_delay: u64,
    pub max_operations_per_frame: usize,
}

impl Default for LODConfig {
    fn default() -> (r: LODConfig)
        ensures
            r == (LODConfig { transition_delay: 10_000_000, max_operations_per_frame: 1150 }),
    {
        LODConfig { transition_delay: 10_000_000, max_operations_per_frame: 1150 }
    }
}

} // verus!
