//! The time grid of a tracking window.
use vstd::prelude::*;

use crate::time::Instant;

verus! {

/// One sample per second.
pub const SAMPLE_STEP_NANOS: i128 = 1_000_000_000;

/// An open-ended run computes fifteen minutes at a time.
pub const OPEN_ENDED_WINDOW_NANOS: i128 = 900_000_000_000;

/// Where a window starting at `start` ends: at `end`, or fifteen minutes on when open-ended.
pub open spec fn window_end_of(start: Instant, end: Option<Instant>) -> Instant {
    match end {
        Some(e) => e,
        None => Instant { unix_nanos: (start.unix_nanos + OPEN_ENDED_WINDOW_NANOS) as i128 },
    }
}

pub fn window_end(start: Instant, end: Option<Instant>) -> (r: Instant)
    requires
        start.unix_nanos <= i128::MAX - OPEN_ENDED_WINDOW_NANOS,
    ensures
        r == window_end_of(start, end),
{
    match end {
        Some(e) => e,
        None => Instant { unix_nanos: start.unix_nanos + OPEN_ENDED_WINDOW_NANOS },
    }
}

/// The sample instants of a window: `start`, one second later, and so on while not after
/// `end`.
pub fn sample_times(start: Instant, end: Instant) -> (r: Vec<Instant>)
    requires
        end.unix_nanos <= i128::MAX - SAMPLE_STEP_NANOS,
    ensures
        forall|k: int| 0 <= k < r@.len() ==> (#[trigger] r@[k]).unix_nanos == start.unix_nanos + k
            * SAMPLE_STEP_NANOS && r@[k].unix_nanos <= end.unix_nanos,
        start.unix_nanos + r@.len() * SAMPLE_STEP_NANOS > end.unix_nanos,
{
    let mut r: Vec<Instant> = Vec::new();
    let mut cursor: i128 = start.unix_nanos;
    while cursor <= end.unix_nanos
        invariant
            end.unix_nanos <= i128::MAX - SAMPLE_STEP_NANOS,
            cursor == start.unix_nanos + r@.len() * SAMPLE_STEP_NANOS,
            forall|k: int| 0 <= k < r@.len() ==> (#[trigger] r@[k]).unix_nanos == start.unix_nanos + k
                * SAMPLE_STEP_NANOS && r@[k].unix_nanos <= end.unix_nanos,
        decreases end.unix_nanos + SAMPLE_STEP_NANOS - cursor,
    {
        r.push(Instant { unix_nanos: cursor });
        cursor = cursor + SAMPLE_STEP_NANOS;
    }
    r
}

} // verus!
