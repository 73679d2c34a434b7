//! The negotiated promotion protocol, step by step.
//!
//! A promotion attempt walks a strict order: validate the request and budget
//! the runtime, snapshot the thread's scheduling state, query the broker's
//! policy caps and clamp the request to them, read and narrow the kernel's
//! runtime limit, then ask the broker to make the thread real-time. Each
//! step is a function from the state so far and the outside world's answer
//! to the next state; the states are distinct types consumed by move, so no
//! step can run out of order or twice. The unverified shell around the
//! library performs the platform calls between steps and feeds their results
//! back in.
//!
//! On a broker refusal after the limit was narrowed, the conclusion carries
//! the exact pair to restore; on a grant, the narrowed window stays in place
//! on purpose, bounding how long the thread may run at real-time priority.

use vstd::prelude::*;

use crate::budget::RT_PRIO_DEFAULT;
use crate::budget::compute_budget_us;
use crate::budget::spec_budget_us;
use crate::bus::BusValue;
use crate::bus::item_as_i64;
use crate::bus::spec_item_i64;
use crate::errors::PromotionError;
use crate::limits::LimitPair;
use crate::snapshot::RtPriorityHandleInternal;
use crate::snapshot::SchedulingSnapshot;

verus! {

/// A promotion attempt right after validation: the budget is computed,
/// nothing outside the process has been touched yet.
#[derive(Debug, PartialEq, Eq, Structural)]
pub struct PromotionRequested {
    /// Real-time runtime budgeted for one render callback, in microseconds.
    pub budget_us: u64,
    /// The priority that will be requested of the broker, before clamping.
    pub requested_priority: u32,
}

/// A promotion attempt that has captured the thread's scheduling state.
#[derive(Debug, PartialEq, Eq, Structural)]
pub struct PromotionSnapshotted {
    /// Real-time runtime budgeted for one render callback, in microseconds.
    pub budget_us: u64,
    /// The priority that will be requested of the broker, before clamping.
    pub requested_priority: u32,
    /// The scheduling state to restore on demotion.
    pub snapshot: SchedulingSnapshot,
}

/// A promotion attempt whose request has been clamped to the broker's
/// reported policy caps.
#[derive(Debug, PartialEq, Eq, Structural)]
pub struct PromotionClamped {
    /// The scheduling state to restore on demotion.
    pub snapshot: SchedulingSnapshot,
    /// The priority to ask the broker for, at most the reported cap.
    pub req_priority: u32,
    /// The runtime window to narrow the limit to, at most the reported cap.
    pub req_rttime_us: u64,
}

/// A promotion attempt after the runtime limit was narrowed: from here on,
/// every failure must restore `saved_limit`.
#[derive(Debug, PartialEq, Eq, Structural)]
pub struct PromotionNarrowed {
    /// The scheduling state to restore on demotion.
    pub snapshot: SchedulingSnapshot,
    /// The priority to ask the broker for.
    pub req_priority: u32,
    /// The runtime window the limit was narrowed to.
    pub req_rttime_us: u64,
    /// The limit pair observed immediately before narrowing.
    pub saved_limit: LimitPair,
}

/// The broker's answer to the promotion request.
#[derive(Clone, Copy, Debug, PartialEq, Eq, Structural)]
pub enum BrokerReply {
    /// The broker made the thread real-time.
    Granted,
    /// The broker declined the request.
    Rejected,
    /// No reply arrived within the bounded wait.
    TimedOut,
}

/// A successful promotion: the handle the caller gets, and the priority the
/// broker actually applied.
#[derive(Debug, PartialEq, Eq, Structural)]
pub struct PromotionGrant {
    /// The handle that owns the captured scheduling snapshot.
    pub handle: RtPriorityHandleInternal,
    /// The clamped priority the broker applied.
    pub applied_priority: u32,
}

/// A failed promotion after the limit was narrowed: the error to surface and
/// the pair the limit must be restored to before surfacing it.
#[derive(Clone, Copy, Debug, PartialEq, Eq, Structural)]
pub struct PromotionRollback {
    /// The primary error; a failure of the restore itself may be logged but
    /// never replaces it.
    pub error: PromotionError,
    /// The limit pair observed before narrowing, to be reapplied.
    pub restore_to: LimitPair,
}

/// The state after recording a captured scheduling snapshot.
pub open spec fn spec_snapshotted(p: PromotionRequested, policy: i32, priority: i32)
    -> PromotionSnapshotted {
    PromotionSnapshotted {
        budget_us: p.budget_us,
        requested_priority: p.requested_priority,
        snapshot: SchedulingSnapshot { policy, priority },
    }
}

/// The priority actually asked of the broker: the minimum of the request and
/// the reported cap, and never negative.
pub open spec fn spec_clamped_priority(requested: u32, cap: i64) -> u32 {
    if cap < 0 {
        0u32
    } else if cap < requested {
        cap as u32
    } else {
        requested
    }
}

/// The runtime window actually narrowed to: the minimum of the budget and
/// the reported cap, and never negative.
pub open spec fn spec_clamped_budget(budget_us: u64, cap: i64) -> u64 {
    if cap < 0 {
        0u64
    } else if cap < budget_us {
        cap as u64
    } else {
        budget_us
    }
}

/// The state after clamping the request to the broker's policy caps.
pub open spec fn spec_clamped(s: PromotionSnapshotted, max_priority: i64, max_rttime_us: i64)
    -> PromotionClamped {
    PromotionClamped {
        snapshot: s.snapshot,
        req_priority: spec_clamped_priority(s.requested_priority, max_priority),
        req_rttime_us: spec_clamped_budget(s.budget_us, max_rttime_us),
    }
}

/// The state after the runtime limit was narrowed, with `previous` the pair
/// observed immediately before.
pub open spec fn spec_narrowed(c: PromotionClamped, previous: LimitPair) -> PromotionNarrowed {
    PromotionNarrowed {
        snapshot: c.snapshot,
        req_priority: c.req_priority,
        req_rttime_us: c.req_rttime_us,
        saved_limit: previous,
    }
}

/// How a narrowed attempt concludes for each broker reply: a grant carries
/// the snapshot into the handle and leaves the narrowed window in place; a
/// refusal or a timeout demands that the saved pair be restored.
pub open spec fn spec_conclusion(n: PromotionNarrowed, reply: BrokerReply) -> Result<
    PromotionGrant,
    PromotionRollback,
> {
    match reply {
        BrokerReply::Granted => Ok(
            PromotionGrant {
                handle: RtPriorityHandleInternal { snapshot: n.snapshot },
                applied_priority: n.req_priority,
            },
        ),
        BrokerReply::Rejected => Err(
            PromotionRollback { error: PromotionError::BrokerRejected, restore_to: n.saved_limit },
        ),
        BrokerReply::TimedOut => Err(
            PromotionRollback { error: PromotionError::BrokerTimeout, restore_to: n.saved_limit },
        ),
    }
}

/// Validates the public request and budgets the runtime. Fails exactly on a
/// zero sample rate, before any platform state is touched.
pub fn begin_promotion(audio_buffer_frames: u32, audio_samplerate_hz: u32) -> (r: Result<
    PromotionRequested,
    PromotionError,
>)
    ensures
        audio_samplerate_hz == 0 ==> (r matches Err(e) && e == PromotionError::InvalidInput),
        audio_samplerate_hz != 0 ==> (r matches Ok(p)
            && p.budget_us == spec_budget_us(audio_buffer_frames, audio_samplerate_hz)
            && p.requested_priority == RT_PRIO_DEFAULT),
{
    if audio_samplerate_hz == 0 {
        return Err(PromotionError::InvalidInput);
    }
    let budget_us: u64 = compute_budget_us(audio_buffer_frames, audio_samplerate_hz);
    Ok(PromotionRequested { budget_us, requested_priority: RT_PRIO_DEFAULT })
}

/// Records the scheduling snapshot the platform captured, or aborts if the
/// capture's status is negative: a failed capture must be signalled, never
/// silently defaulted, lest demotion later restore a plausible but wrong
/// policy.
pub fn interpret_sched_query(
    p: PromotionRequested,
    query_status: i32,
    policy: i32,
    priority: i32,
) -> (r: Result<PromotionSnapshotted, PromotionError>)
    ensures
        query_status < 0 ==> (r matches Err(e) && e == PromotionError::QueryFailure),
        query_status >= 0 ==> r == Ok::<_, PromotionError>(spec_snapshotted(p, policy, priority)),
{
    if query_status < 0 {
        Err(PromotionError::QueryFailure)
    } else {
        Ok(
            PromotionSnapshotted {
                budget_us: p.budget_us,
                requested_priority: p.requested_priority,
                snapshot: SchedulingSnapshot { policy, priority },
            },
        )
    }
}

/// Clamps the request to the broker's reported policy caps. Either property
/// failing to be an integer aborts with a broker query failure; no limit
/// narrowing has happened yet, so no rollback is owed. Over-requesting is
/// never an error: the request is silently clamped to the caps.
pub fn apply_policy(
    s: PromotionSnapshotted,
    max_priority_item: BusValue,
    max_rttime_item: BusValue,
) -> (r: Result<PromotionClamped, PromotionError>)
    ensures
        (spec_item_i64(max_priority_item) is None || spec_item_i64(max_rttime_item) is None) ==> (
        r matches Err(e) && e == PromotionError::BrokerQueryFailure),
        spec_item_i64(max_priority_item) matches Some(mp)
            ==> spec_item_i64(max_rttime_item) matches Some(mr)
            ==> r == Ok::<_, PromotionError>(spec_clamped(s, mp, mr)),
{
    let max_priority: i64 = match item_as_i64(max_priority_item) {
        Ok(v) => v,
        Err(e) => { return Err(e); },
    };
    let max_rttime_us: i64 = match item_as_i64(max_rttime_item) {
        Ok(v) => v,
        Err(e) => { return Err(e); },
    };
    let req_priority: u32 = if max_priority < 0 {
        0
    } else if max_priority < s.requested_priority as i64 {
        max_priority as u32
    } else {
        s.requested_priority
    };
    let req_rttime_us: u64 = if max_rttime_us < 0 {
        0
    } else {
        let cap: u64 = max_rttime_us as u64;
        if cap < s.budget_us {
            cap
        } else {
            s.budget_us
        }
    };
    Ok(PromotionClamped { snapshot: s.snapshot, req_priority, req_rttime_us })
}

/// Records that the limit was narrowed to the clamped window, with
/// `previous` the pair read immediately before; a negative status from the
/// narrowing call aborts the attempt, and since nothing was changed, nothing
/// is rolled back.
pub fn interpret_limit_set(c: PromotionClamped, set_status: i32, previous: LimitPair) -> (r:
    Result<PromotionNarrowed, PromotionError>)
    ensures
        set_status < 0 ==> (r matches Err(e) && e == PromotionError::LimitSetFailure),
        set_status >= 0 ==> r == Ok::<_, PromotionError>(spec_narrowed(c, previous)),
{
    if set_status < 0 {
        Err(PromotionError::LimitSetFailure)
    } else {
        Ok(
            PromotionNarrowed {
                snapshot: c.snapshot,
                req_priority: c.req_priority,
                req_rttime_us: c.req_rttime_us,
                saved_limit: previous,
            },
        )
    }
}

/// Concludes the attempt on the broker's reply. A grant yields the handle —
/// carrying the captured snapshot bit for bit — and the applied priority,
/// and the narrowed window stays in place for the lifetime of the grant. A
/// refusal or a timeout yields the error and the exact pair to restore.
pub fn conclude(n: PromotionNarrowed, reply: BrokerReply) -> (r: Result<
    PromotionGrant,
    PromotionRollback,
>)
    ensures
        r == spec_conclusion(n, reply),
{
    match reply {
        BrokerReply::Granted => Ok(
            PromotionGrant {
                handle: RtPriorityHandleInternal { snapshot: n.snapshot },
                applied_priority: n.req_priority,
            },
        ),
        BrokerReply::Rejected => Err(
            PromotionRollback { error: PromotionError::BrokerRejected, restore_to: n.saved_limit },
        ),
        BrokerReply::TimedOut => Err(
            PromotionRollback { error: PromotionError::BrokerTimeout, restore_to: n.saved_limit },
        ),
    }
}

} // verus!
