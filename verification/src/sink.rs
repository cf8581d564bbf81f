//! The visibility sink's retry contract: a hide request is made durable by
//! issuing the underlying hide call a fixed number of times with a fixed
//! pause after each, since the window manager may reassert visibility
//! right after a single hide. The calls themselves are OS work performed
//! by the event loop; this module fixes their schedule.

use vstd::prelude::*;

verus! {

/// How many underlying hide calls one `Hide` request issues.
pub const HIDE_RETRY_ATTEMPTS: usize = 3;

/// Pause after each underlying hide call, in milliseconds.
pub const HIDE_RETRY_PAUSE_MS: u64 = 50;

/// The schedule of one `Hide` request: one entry per underlying hide
/// call, giving the pause that follows it. Always exactly
/// `HIDE_RETRY_ATTEMPTS` calls spaced `HIDE_RETRY_PAUSE_MS` apart,
/// whatever the outcome of the calls: the sink cannot observe success.
pub fn hide_retry_schedule() -> (r: Vec<u64>)
    ensures
        r@.len() == HIDE_RETRY_ATTEMPTS,
        forall|i: int| 0 <= i < r@.len() ==> r@[i] == HIDE_RETRY_PAUSE_MS,
{
    let mut r: Vec<u64> = Vec::new();
    let mut n: usize = 0;
    while n < HIDE_RETRY_ATTEMPTS
        invariant
            n <= HIDE_RETRY_ATTEMPTS,
            r@.len() == n,
            forall|i: int| 0 <= i < r@.len() ==> r@[i] == HIDE_RETRY_PAUSE_MS,
        decreases HIDE_RETRY_ATTEMPTS - n,
    {
        r.push(HIDE_RETRY_PAUSE_MS);
        n = n + 1;
    }
    r
}

} // verus!
