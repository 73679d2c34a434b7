//! Error taxonomy of the promotion and demotion protocol.

use vstd::prelude::*;

verus! {

/// Why a promotion attempt failed.
///
/// Every failure during promotion is surfaced as one of these kinds; no
/// partial handle is ever returned alongside one.
#[derive(Clone, Copy, Debug, PartialEq, Eq, Structural)]
pub enum PromotionError {
    /// The caller passed a sample rate of zero.
    InvalidInput,
    /// The current scheduling policy and parameters could not be read.
    QueryFailure,
    /// The current runtime-limit pair could not be read.
    LimitQueryFailure,
    /// The runtime limit could not be narrowed to the requested window.
    LimitSetFailure,
    /// The broker's policy properties could not be obtained, or one of them
    /// was not an integer.
    BrokerQueryFailure,
    /// The broker declined the promotion request.
    BrokerRejected,
    /// The broker did not reply within the bounded wait.
    BrokerTimeout,
}

/// Why a demotion attempt failed.
#[derive(Clone, Copy, Debug, PartialEq, Eq, Structural)]
pub enum DemotionError {
    /// The saved scheduling snapshot could not be reapplied to the thread.
    RestoreFailure,
}

} // verus!
