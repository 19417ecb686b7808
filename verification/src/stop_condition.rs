//! Stopping criteria for a heuristic run.

use vstd::prelude::*;

verus! {

/// Stopping criteria for a heuristic run: a run stops as soon as any of the
/// set conditions is met, and a condition left as `None` is not used.
///
/// The wall-clock limit is held as the IEEE-754 bit pattern of the number of
/// seconds (`f64::to_bits`); it is carried, never computed with, here.
#[derive(Clone, Copy, Debug, PartialEq, Eq)]
pub struct StopCondition {
    /// Stop after this many iterations.
    pub max_iteration: Option<u64>,
    /// Stop after this many seconds (bit pattern of an `f64`).
    pub max_duration_secs_bits: Option<u64>,
    /// Stop after this many consecutive iterations without improving the best
    /// solution.
    pub max_failed_update: Option<u64>,
}

impl StopCondition {
    /// Builds a stopping criterion from its three optional limits.
    pub fn new(
        max_iteration: Option<u64>,
        max_duration_secs_bits: Option<u64>,
        max_failed_update: Option<u64>,
    ) -> (r: Self)
        ensures
            r.max_iteration == max_iteration,
            r.max_duration_secs_bits == max_duration_secs_bits,
            r.max_failed_update == max_failed_update,
    {
        StopCondition { max_iteration, max_duration_secs_bits, max_failed_update }
    }
}

} // verus!
