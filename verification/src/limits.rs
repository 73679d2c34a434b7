//! The process-wide real-time runtime limit: read, narrow, restore.
//!
//! The kernel enforces a budget on how long a real-time thread may run; the
//! broker refuses promotion if the limit is absent or too small, and the
//! kernel kills the thread if it overruns. The pair read before narrowing is
//! what every failure path after narrowing must restore.

use vstd::prelude::*;

use crate::errors::PromotionError;

verus! {

/// A (soft, hard) runtime-limit pair, in microseconds.
#[derive(Clone, Copy, Debug, PartialEq, Eq, Structural)]
pub struct LimitPair {
    /// The soft limit: the budget the kernel enforces on the thread.
    pub soft: u64,
    /// The hard limit: the ceiling the soft limit may be raised to.
    pub hard: u64,
}

/// The window the limit is narrowed to for a clamped budget: both soft and
/// hard limit are set to the budget itself.
pub open spec fn spec_narrow_window(rttime_us: u64) -> LimitPair {
    LimitPair { soft: rttime_us, hard: rttime_us }
}

/// The pair to hand the platform when narrowing the limit to `rttime_us`.
pub fn narrow_window(rttime_us: u64) -> (w: LimitPair)
    ensures
        w == spec_narrow_window(rttime_us),
{
    LimitPair { soft: rttime_us, hard: rttime_us }
}

/// Interprets the status of reading the current limit pair: a negative
/// status aborts the promotion before anything was changed, so nothing needs
/// to be rolled back.
pub fn interpret_limit_read(read_status: i32, soft: u64, hard: u64) -> (r: Result<
    LimitPair,
    PromotionError,
>)
    ensures
        read_status < 0 ==> (r matches Err(e) && e == PromotionError::LimitQueryFailure),
        read_status >= 0 ==> (r matches Ok(p) && p == (LimitPair { soft, hard })),
{
    if read_status < 0 {
        Err(PromotionError::LimitQueryFailure)
    } else {
        Ok(LimitPair { soft, hard })
    }
}

} // verus!
