//! Time gate for advancing generations, decoupled from the frame rate.
use vstd::prelude::*;

verus! {

/// Minimum time, in milliseconds, between two generations.
pub const STEP_INTERVAL_MS: i64 = 100;

/// A generation is due when the simulation runs and at least
/// `STEP_INTERVAL_MS` have passed since the last one.
pub open spec fn is_step_due(running: bool, last_ms: int, now_ms: int) -> bool {
    running && now_ms - last_ms >= STEP_INTERVAL_MS
}

/// Decides whether a new generation is computed at time `now_ms`, given the
/// time `last_ms` of the previous one.
pub fn step_due(running: bool, last_ms: i64, now_ms: i64) -> (r: bool)
    ensures
        r == is_step_due(running, last_ms as int, now_ms as int),
{
    if !running {
        false
    } else if last_ms > i64::MAX - STEP_INTERVAL_MS {
        false
    } else {
        now_ms >= last_ms + STEP_INTERVAL_MS
    }
}

/// Relies on chrono's `Local::now` and `DateTime::timestamp_millis`: the
/// current wall-clock time in milliseconds since the Unix epoch. Nothing is
/// promised of its value.
#[verifier::external_body]
pub(crate) fn clock_millis() -> (r: i64) {
    chrono::Local::now().timestamp_millis()
}

} // verus!
