//! The limits on timeouts, and the delay that a web timer can be given.

use vstd::prelude::*;

verus! {

/// A good default timeout, in milliseconds (one minute).
pub const DEFAULT_TIMEOUT_MILLIS: u64 = 60_000;

/// The largest timeout allowed, in milliseconds: `i32::MAX`, the largest delay
/// that a web timer accepts.
pub const MAX_TIMEOUT_MILLIS: u64 = 2_147_483_647;

/// The delay to hand a web timer for a duration of `millis` milliseconds, or
/// `None` when the duration exceeds [`MAX_TIMEOUT_MILLIS`] (the web timer would
/// misbehave, so callers refuse such a duration).
pub fn web_timer_millis(millis: u128) -> (r: Option<u32>)
    ensures
        r is Some <==> millis <= MAX_TIMEOUT_MILLIS,
        r matches Some(m) ==> m == millis,
{
    if millis <= MAX_TIMEOUT_MILLIS as u128 {
        Some(millis as u32)
    } else {
        None
    }
}

} // verus!
