//! Measuring how far resynchronisation moved the wall clock.

use vstd::prelude::*;
use crate::fault::Fault;

verus! {

pub const NANOS_PER_SECOND: u64 = 1_000_000_000;

/// A monotonic reading and a wall-clock reading taken back to back.
pub struct ClockSnapshot {
    /// Nanoseconds on the monotonic clock, from an origin fixed for the run.
    pub monotonic_nanos: u64,
    /// Whole seconds since the UNIX epoch on the wall clock.
    pub wall_seconds: u64,
}

/// The time the synchronisation step took and the correction it made.
pub struct DriftResult {
    pub elapsed_process_seconds: u64,
    pub shift_seconds: i64,
}

/// Whole seconds that passed on the monotonic clock between two snapshots.
pub open spec fn elapsed_seconds(pre: ClockSnapshot, post: ClockSnapshot) -> int {
    (post.monotonic_nanos - pre.monotonic_nanos) / (NANOS_PER_SECOND as int)
}

/// The wall-clock movement between two snapshots less the time that passed.
pub open spec fn shift_of(pre: ClockSnapshot, post: ClockSnapshot) -> int {
    (post.wall_seconds - pre.wall_seconds) - elapsed_seconds(pre, post)
}

pub open spec fn fits_i64(x: int) -> bool {
    i64::MIN <= x <= i64::MAX
}

/// Derives the drift between the snapshots taken before and after
/// resynchronisation. Fails only where the shift does not fit a signed word.
pub fn compute_drift(pre: &ClockSnapshot, post: &ClockSnapshot) -> (r: Result<DriftResult, Fault>)
    requires
        pre.monotonic_nanos <= post.monotonic_nanos,
    ensures
        r is Ok <==> fits_i64(shift_of(*pre, *post)),
        r matches Ok(d) ==> d.elapsed_process_seconds == elapsed_seconds(*pre, *post)
            && d.shift_seconds == shift_of(*pre, *post),
        r matches Err(f) ==> f is ArithmeticOverflow,
{
    let elapsed: u64 = (post.monotonic_nanos - pre.monotonic_nanos) / NANOS_PER_SECOND;
    let shift: i128 = (post.wall_seconds as i128 - pre.wall_seconds as i128) - elapsed as i128;
    if shift < i64::MIN as i128 || shift > i64::MAX as i128 {
        Err(Fault::ArithmeticOverflow)
    } else {
        Ok(DriftResult { elapsed_process_seconds: elapsed, shift_seconds: shift as i64 })
    }
}

impl DriftResult {
    /// Whether the wall clock now stands behind what elapsed time predicts.
    pub fn clock_moved_backward(&self) -> (r: bool)
        ensures
            r == (self.shift_seconds < 0),
    {
        self.shift_seconds < 0
    }
}

/// For any pair of snapshots in monotonic order, the shift is the wall-clock
/// difference less the elapsed whole seconds, the elapsed time is never
/// negative, and a wall clock that went back yields a negative shift.
pub proof fn lemma_shift_formula(pre: ClockSnapshot, post: ClockSnapshot)
    requires
        pre.monotonic_nanos <= post.monotonic_nanos,
    ensures
        elapsed_seconds(pre, post) >= 0,
        shift_of(pre, post) == (post.wall_seconds - pre.wall_seconds) - elapsed_seconds(pre, post),
        post.wall_seconds < pre.wall_seconds ==> shift_of(pre, post) < 0,
{
}

} // verus!
