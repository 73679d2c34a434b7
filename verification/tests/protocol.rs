//! The negotiation protocol driven end to end with concrete broker answers.

use audio_thread_priority::bus::BusValue;
use audio_thread_priority::errors::DemotionError;
use audio_thread_priority::errors::PromotionError;
use audio_thread_priority::limits::LimitPair;
use audio_thread_priority::limits::interpret_limit_read;
use audio_thread_priority::limits::narrow_window;
use audio_thread_priority::negotiation::BrokerReply;
use audio_thread_priority::negotiation::PromotionGrant;
use audio_thread_priority::negotiation::PromotionNarrowed;
use audio_thread_priority::negotiation::PromotionSnapshotted;
use audio_thread_priority::negotiation::apply_policy;
use audio_thread_priority::negotiation::begin_promotion;
use audio_thread_priority::negotiation::conclude;
use audio_thread_priority::negotiation::interpret_limit_set;
use audio_thread_priority::negotiation::interpret_sched_query;
use audio_thread_priority::snapshot::demotion_target;
use audio_thread_priority::snapshot::interpret_restore;

/// Runs a whole promotion attempt against a simulated platform and broker
/// that answer every step, up to the broker's reply.
fn negotiate(
    frames: u32,
    rate: u32,
    policy: i32,
    priority: i32,
    max_priority: BusValue,
    max_rttime: BusValue,
    previous: LimitPair,
) -> Result<PromotionNarrowed, PromotionError> {
    let requested = begin_promotion(frames, rate)?;
    let snapshotted = interpret_sched_query(requested, 0, policy, priority)?;
    let clamped = apply_policy(snapshotted, max_priority, max_rttime)?;
    let observed = interpret_limit_read(0, previous.soft, previous.hard)?;
    interpret_limit_set(clamped, 0, observed)
}

fn grant(
    frames: u32,
    rate: u32,
) -> Result<PromotionGrant, PromotionError> {
    let narrowed = negotiate(
        frames,
        rate,
        2,
        55,
        BusValue::Int32(20),
        BusValue::Int64(200_000),
        LimitPair { soft: 33, hard: 44 },
    )?;
    match conclude(narrowed, BrokerReply::Granted) {
        Ok(g) => Ok(g),
        Err(rb) => Err(rb.error),
    }
}

/// A fresh snapshotted state: the step states are consumed by move, so each
/// probe of a later step starts a new attempt.
fn snapshotted(frames: u32, rate: u32) -> PromotionSnapshotted {
    let requested = begin_promotion(frames, rate).unwrap();
    interpret_sched_query(requested, 0, 0, 0).unwrap()
}

#[test]
fn zero_sample_rate_is_invalid_input_for_any_frame_count() {
    for frames in [0u32, 1, 512, 2205, u32::MAX] {
        match begin_promotion(frames, 0) {
            Err(e) => assert!(e == PromotionError::InvalidInput),
            Ok(_) => panic!("a zero sample rate must be rejected"),
        }
    }
}

#[test]
fn zero_frames_budget_equals_default_slice_budget() {
    let implicit = begin_promotion(0, 44100).unwrap();
    let explicit = begin_promotion(2205, 44100).unwrap();
    assert_eq!(implicit.budget_us, explicit.budget_us);
    assert_eq!(implicit.budget_us, 50_000);
}

#[test]
fn budget_formula_exact_values() {
    assert_eq!(begin_promotion(512, 44100).unwrap().budget_us, 11_609);
    assert_eq!(begin_promotion(48000, 48000).unwrap().budget_us, 1_000_000);
    assert_eq!(begin_promotion(0, 48000).unwrap().budget_us, 50_000);
    // A rate under the slice divisor gives an empty default slice.
    assert_eq!(begin_promotion(0, 19).unwrap().budget_us, 0);
}

#[test]
fn priority_clamped_to_reported_cap() {
    let low_cap = apply_policy(snapshotted(512, 44100), BusValue::Int32(5), BusValue::Int64(200_000))
        .unwrap();
    assert_eq!(low_cap.req_priority, 5);
    let high_cap =
        apply_policy(snapshotted(512, 44100), BusValue::Int64(100), BusValue::Int64(200_000))
            .unwrap();
    assert_eq!(high_cap.req_priority, 10);
    let negative_cap =
        apply_policy(snapshotted(512, 44100), BusValue::Int32(-1), BusValue::Int64(200_000))
            .unwrap();
    assert_eq!(negative_cap.req_priority, 0);
}

#[test]
fn runtime_budget_clamped_to_reported_cap() {
    let tight = apply_policy(snapshotted(0, 44100), BusValue::Int32(20), BusValue::Int64(20_000))
        .unwrap();
    assert_eq!(tight.req_rttime_us, 20_000);
    let loose = apply_policy(snapshotted(0, 44100), BusValue::Int32(20), BusValue::Int64(200_000))
        .unwrap();
    assert_eq!(loose.req_rttime_us, 50_000);
}

#[test]
fn non_integer_policy_property_is_broker_query_failure() {
    match apply_policy(snapshotted(0, 44100), BusValue::Other, BusValue::Int64(200_000)) {
        Err(e) => assert!(e == PromotionError::BrokerQueryFailure),
        Ok(_) => panic!("a non-integer cap must abort the negotiation"),
    }
    match apply_policy(snapshotted(0, 44100), BusValue::Int32(20), BusValue::Other) {
        Err(e) => assert!(e == PromotionError::BrokerQueryFailure),
        Ok(_) => panic!("a non-integer cap must abort the negotiation"),
    }
}

#[test]
fn narrowing_window_sets_both_limits_to_the_budget() {
    let w = narrow_window(20_000);
    assert_eq!(w.soft, 20_000);
    assert_eq!(w.hard, 20_000);
}

#[test]
fn rejection_rolls_back_to_the_observed_pair() {
    let narrowed = negotiate(
        512,
        44100,
        2,
        55,
        BusValue::Int32(20),
        BusValue::Int64(200_000),
        LimitPair { soft: 33, hard: 44 },
    )
    .unwrap();
    match conclude(narrowed, BrokerReply::Rejected) {
        Err(rollback) => {
            assert!(rollback.error == PromotionError::BrokerRejected);
            assert_eq!(rollback.restore_to.soft, 33);
            assert_eq!(rollback.restore_to.hard, 44);
        }
        Ok(_) => panic!("a rejected negotiation must not yield a handle"),
    }
}

#[test]
fn timeout_rolls_back_to_the_observed_pair() {
    let narrowed = negotiate(
        512,
        44100,
        2,
        55,
        BusValue::Int32(20),
        BusValue::Int64(200_000),
        LimitPair { soft: 7, hard: 9 },
    )
    .unwrap();
    match conclude(narrowed, BrokerReply::TimedOut) {
        Err(rollback) => {
            assert!(rollback.error == PromotionError::BrokerTimeout);
            assert_eq!(rollback.restore_to.soft, 7);
            assert_eq!(rollback.restore_to.hard, 9);
        }
        Ok(_) => panic!("a timed-out negotiation must not yield a handle"),
    }
}

#[test]
fn failed_scheduling_query_aborts_with_query_failure() {
    let requested = begin_promotion(0, 44100).unwrap();
    match interpret_sched_query(requested, -1, 0, 0) {
        Err(e) => assert!(e == PromotionError::QueryFailure),
        Ok(_) => panic!("a failed capture must be signalled, not defaulted"),
    }
}

#[test]
fn failed_limit_read_aborts_with_limit_query_failure() {
    match interpret_limit_read(-1, 0, 0) {
        Err(e) => assert!(e == PromotionError::LimitQueryFailure),
        Ok(_) => panic!("an unreadable limit must abort the attempt"),
    }
}

#[test]
fn failed_limit_set_aborts_with_limit_set_failure() {
    let clamped = apply_policy(snapshotted(0, 44100), BusValue::Int32(20), BusValue::Int64(200_000))
        .unwrap();
    match interpret_limit_set(clamped, -1, LimitPair { soft: 33, hard: 44 }) {
        Err(e) => assert!(e == PromotionError::LimitSetFailure),
        Ok(_) => panic!("a failed narrowing must abort the attempt"),
    }
}

#[test]
fn scenario_zero_rate_fails() {
    assert!(begin_promotion(0, 0).is_err());
}

#[test]
fn scenario_default_frames_grant_and_demote() {
    let g = grant(0, 44100).unwrap();
    let target = demotion_target(g.handle);
    assert_eq!(target.policy, 2);
    assert_eq!(target.priority, 55);
    assert!(interpret_restore(0).is_ok());
}

#[test]
fn scenario_explicit_frames_grant_and_demote() {
    let g = grant(512, 44100).unwrap();
    assert_eq!(g.applied_priority, 10);
    let target = demotion_target(g.handle);
    assert_eq!(target.policy, 2);
    assert_eq!(target.priority, 55);
    assert!(interpret_restore(0).is_ok());
}

#[test]
fn failed_restore_is_a_restore_failure() {
    match interpret_restore(-1) {
        Err(e) => assert!(e == DemotionError::RestoreFailure),
        Ok(_) => panic!("a failed reapplication must be surfaced"),
    }
}
