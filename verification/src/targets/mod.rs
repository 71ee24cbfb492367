pub mod appleii;
use vstd::prelude::*;

verus! {

/// Whether a target's processor is executing instructions.
#[derive(Debug, Clone, Copy, PartialEq, Eq, Structural)]
pub enum ExecutionState {
    Stopped,
    Running,
}

} // verus!
