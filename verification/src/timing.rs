//! Timing constants of the grace window, and the wall clock.

use vstd::prelude::*;

verus! {

/// Length of the grace window after the trigger key is released, during
/// which the taskbar stays visible.
pub const WIN_KEY_DELAY_MS: u64 = 400;

/// Safety margin added when arming the debounce timer, so that the timer
/// fires strictly after the grace window has elapsed.
pub const TIMER_MARGIN_MS: u64 = 50;

/// Duration the debounce timer is armed for on key release.
pub const TIMER_ARM_MS: u64 = WIN_KEY_DELAY_MS + TIMER_MARGIN_MS;

/// Relies on std::time::SystemTime::now and duration_since(UNIX_EPOCH):
/// the current wall-clock time in milliseconds since the Unix epoch, or 0
/// if the clock reads earlier than the epoch. Nothing can be promised of
/// what the clock returns.
#[verifier::external_body]
pub fn get_current_time_ms() -> u64 {
    std::time::SystemTime::now()
        .duration_since(std::time::UNIX_EPOCH)
        .map(|d| d.as_millis() as u64)
        .unwrap_or(0)
}

/// Whether `now_ms` still falls inside the grace window that opened when
/// the trigger key was released at `release_time_ms` (`None`: no release
/// is pending, the window is closed).
pub open spec fn within_grace(release_time_ms: Option<u64>, now_ms: u64) -> bool {
    match release_time_ms {
        Option::Some(t) => (now_ms as int) < t + WIN_KEY_DELAY_MS,
        Option::None => false,
    }
}

/// Whether the grace window opened by the last key release is still open
/// at `now_ms`.
pub fn is_within_delay_period(release_time_ms: Option<u64>, now_ms: u64) -> (r: bool)
    ensures
        r == within_grace(release_time_ms, now_ms),
{
    match release_time_ms {
        Option::Some(t) => {
            if now_ms < t {
                true
            } else {
                now_ms - t < WIN_KEY_DELAY_MS
            }
        },
        Option::None => false,
    }
}

} // verus!
