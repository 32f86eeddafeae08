//! What the tracker can fail with.
use vstd::prelude::*;

verus! {

#[derive(Debug, Clone, PartialEq)]
pub enum TrackerError {
    AlreadyRunning,
    InvalidTleFormat,
    /// The element lines were refused by the propagator's TLE reader.
    InvalidTle(String),
    /// The elements were refused by the propagator's initialisation.
    Elements(String),
    Propagation(String),
}

} // verus!
