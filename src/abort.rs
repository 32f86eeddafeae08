//! The signal a background worker sends to end a run early.
use vstd::prelude::*;

verus! {

/// Sent by a background worker to make the runner stop at its next wait.
#[derive(Debug, Clone, PartialEq)]
pub struct AbortSignal {
    pub step: usize,
    pub reason: String,
}

} // verus!
