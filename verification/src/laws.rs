//! The guarantees the protocol gives as a whole, stated and proved over the
//! specification model the step contracts are written against.

use vstd::prelude::*;

use crate::budget::DEFAULT_SLICE_DIVISOR;
use crate::budget::spec_budget_us;
use crate::limits::LimitPair;
use crate::negotiation::BrokerReply;
use crate::negotiation::PromotionClamped;
use crate::negotiation::PromotionRequested;
use crate::negotiation::spec_clamped;
use crate::negotiation::spec_clamped_budget;
use crate::negotiation::spec_clamped_priority;
use crate::negotiation::spec_conclusion;
use crate::negotiation::spec_narrowed;
use crate::negotiation::spec_snapshotted;
use crate::snapshot::SchedulingSnapshot;
use crate::snapshot::spec_demotion_target;

verus! {

/// A request of zero frames is budgeted exactly like an explicit request for
/// one twentieth of a second's worth of frames: the default slice is not a
/// special case of the budget formula, only of the frame count fed to it.
pub proof fn lemma_zero_frames_default_budget(rate: u32)
    requires
        rate > 0,
    ensures
        spec_budget_us(0, rate) == spec_budget_us(rate / DEFAULT_SLICE_DIVISOR, rate),
{
}

/// The priority asked of the broker never exceeds a non-negative reported
/// cap, and never exceeds what the caller requested.
pub proof fn lemma_priority_clamped(requested: u32, cap: i64)
    requires
        0 <= cap,
    ensures
        spec_clamped_priority(requested, cap) <= cap,
        spec_clamped_priority(requested, cap) <= requested,
{
}

/// The runtime window narrowed to never exceeds a non-negative reported
/// cap, and never exceeds the computed budget.
pub proof fn lemma_budget_clamped(budget_us: u64, cap: i64)
    requires
        0 <= cap,
    ensures
        spec_clamped_budget(budget_us, cap) <= cap,
        spec_clamped_budget(budget_us, cap) <= budget_us,
{
}

/// If the broker turns the request down — by refusal or by timeout — after
/// the runtime limit was narrowed, the conclusion demands a rollback, and
/// the pair it restores is exactly the pair observed immediately before
/// narrowing: a round trip on the limit pair.
pub proof fn lemma_rejection_rolls_back_limit(
    c: PromotionClamped,
    observed: LimitPair,
    reply: BrokerReply,
)
    requires
        reply !is Granted,
    ensures
        spec_conclusion(spec_narrowed(c, observed), reply) matches Err(rb) && rb.restore_to
            == observed,
{
}

/// A promotion that runs the whole negotiation to a grant hands back a
/// handle carrying the snapshot captured before anything was changed, bit
/// for bit, and demoting that handle targets exactly that snapshot: promote
/// followed by demote restores the captured scheduling state.
pub proof fn lemma_round_trip_restores_snapshot(
    p: PromotionRequested,
    policy: i32,
    priority: i32,
    max_priority: i64,
    max_rttime_us: i64,
    observed: LimitPair,
)
    ensures
        ({
            let s = spec_snapshotted(p, policy, priority);
            let c = spec_clamped(s, max_priority, max_rttime_us);
            let n = spec_narrowed(c, observed);
            spec_conclusion(n, BrokerReply::Granted) matches Ok(g) && spec_demotion_target(
                g.handle,
            ) == (SchedulingSnapshot { policy, priority })
        }),
{
}

/// A narrowed attempt concludes with a grant exactly when the broker granted
/// it: no reply shape yields a handle and a rollback demand at once.
pub proof fn lemma_grant_iff_granted(
    c: PromotionClamped,
    observed: LimitPair,
    reply: BrokerReply,
)
    ensures
        spec_conclusion(spec_narrowed(c, observed), reply) is Ok <==> reply is Granted,
{
}

} // verus!
