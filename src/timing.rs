//! Clock arithmetic shared by both sessions.
use vstd::prelude::*;

verus! {

/// Largest clock reading, in milliseconds, that the sessions accept; deadlines
/// a few seconds past it still fit in a `u64`.
pub const MAX_CLOCK_MS: u64 = 1_000_000_000_000_000;

/// Length of each intro prompt.
pub const PROMPT_MS: u64 = 2000;

/// Time from `t` to `now`, zero when `t` is not earlier.
pub open spec fn since_spec(now: u64, t: u64) -> int {
    if now >= t {
        now - t
    } else {
        0
    }
}

/// Time from `t` to `now`, saturating at zero like a monotonic clock's
/// `duration_since`.
pub fn since(now: u64, t: u64) -> (r: u64)
    ensures
        r == since_spec(now, t),
{
    if now >= t {
        now - t
    } else {
        0
    }
}

/// The intro prompt shown `elapsed` ms after the intro began, if the intro is
/// still running.
pub open spec fn prompt_spec(elapsed: int) -> Option<crate::IntroPrompt> {
    if elapsed < PROMPT_MS {
        Some(crate::IntroPrompt::Ready)
    } else if elapsed < 2 * PROMPT_MS {
        Some(crate::IntroPrompt::Go)
    } else {
        None
    }
}

/// The intro prompt for `elapsed` ms into the intro; `None` once it is over.
pub fn intro_prompt(elapsed: u64) -> (r: Option<crate::IntroPrompt>)
    ensures
        r == prompt_spec(elapsed as int),
{
    if elapsed < PROMPT_MS {
        Some(crate::IntroPrompt::Ready)
    } else if elapsed < 2 * PROMPT_MS {
        Some(crate::IntroPrompt::Go)
    } else {
        None
    }
}

} // verus!
