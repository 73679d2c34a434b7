//! The scheduling snapshot and the opaque handle that owns it.
//!
//! A promotion captures the calling thread's scheduling policy and priority
//! before anything is changed; the snapshot is the sole payload of the handle
//! a successful promotion returns, and demotion consumes that handle to
//! restore exactly the captured state. Ownership transfer into the demotion
//! call is what makes a second demotion of the same handle impossible.

use vstd::prelude::*;

use crate::errors::DemotionError;

verus! {

/// Immutable capture of a thread's scheduling policy and priority at
/// promotion time.
#[derive(Clone, Copy, Debug, PartialEq, Eq, Structural)]
pub struct SchedulingSnapshot {
    /// The scheduling class the thread was in.
    pub policy: i32,
    /// The scheduling priority the thread had within that class.
    pub priority: i32,
}

/// Opaque wrapper around exactly one [`SchedulingSnapshot`]. Created only by
/// a successful promotion; consumed by demotion. Deliberately neither
/// copyable nor clonable: a handle can be demoted at most once.
#[derive(Debug, PartialEq, Eq, Structural)]
pub struct RtPriorityHandleInternal {
    /// The state to restore when the thread is demoted.
    pub snapshot: SchedulingSnapshot,
}

impl RtPriorityHandleInternal {
    /// A blank handle: baseline policy and priority, both zero.
    pub fn new() -> (h: RtPriorityHandleInternal)
        ensures
            h.snapshot.policy == 0,
            h.snapshot.priority == 0,
    {
        RtPriorityHandleInternal { snapshot: SchedulingSnapshot { policy: 0, priority: 0 } }
    }
}

/// Opaque handle to the scheduling state saved by a promotion.
pub type RtPriorityHandle = RtPriorityHandleInternal;

/// The scheduling state a demotion of `h` reapplies.
pub open spec fn spec_demotion_target(h: RtPriorityHandleInternal) -> SchedulingSnapshot {
    h.snapshot
}

/// Consumes the handle and yields the snapshot to reapply to the thread.
/// Taking the handle by value is what bounds demotion to once per handle.
pub fn demotion_target(h: RtPriorityHandleInternal) -> (s: SchedulingSnapshot)
    ensures
        s == spec_demotion_target(h),
{
    h.snapshot
}

/// Interprets the status the platform returned for reapplying a snapshot:
/// a negative status means the thread keeps its elevated priority and the
/// caller must be told.
pub fn interpret_restore(set_status: i32) -> (r: Result<(), DemotionError>)
    ensures
        set_status < 0 ==> (r matches Err(e) && e == DemotionError::RestoreFailure),
        set_status >= 0 ==> r is Ok,
{
    if set_status < 0 {
        Err(DemotionError::RestoreFailure)
    } else {
        Ok(())
    }
}

} // verus!
