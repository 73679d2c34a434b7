//! Runtime-budget computation for one promotion attempt.
//!
//! The kernel enforces a ceiling on how long a real-time thread may run;
//! before asking the broker for real-time priority, the process budgets the
//! microseconds one render callback may take, derived from the callback's
//! frame count and the stream's sample rate.

use vstd::prelude::*;

verus! {

/// Real-time priority requested of the broker when promoting.
pub const RT_PRIO_DEFAULT: u32 = 10;

/// A zero frame count is replaced by this fraction of the sample rate:
/// one twentieth of a second's worth of frames.
pub const DEFAULT_SLICE_DIVISOR: u32 = 20;

/// Milliseconds to wait for the broker's reply before treating the attempt
/// as failed.
pub const BROKER_REPLY_TIMEOUT_MS: u32 = 10000;

/// The frame count the budget is computed from: a zero request falls back to
/// the default slice.
pub open spec fn spec_effective_frames(frames: u32, rate: u32) -> u32 {
    if frames == 0 {
        rate / DEFAULT_SLICE_DIVISOR
    } else {
        frames
    }
}

/// Microseconds of real-time runtime budgeted for one callback of
/// `frames` frames at `rate` Hz.
pub open spec fn spec_budget_us(frames: u32, rate: u32) -> int
    recommends
        rate > 0,
{
    spec_effective_frames(frames, rate) * 1_000_000 / (rate as int)
}

/// Computes the runtime budget for one callback, in microseconds.
pub fn compute_budget_us(audio_buffer_frames: u32, audio_samplerate_hz: u32) -> (b: u64)
    requires
        audio_samplerate_hz > 0,
    ensures
        b == spec_budget_us(audio_buffer_frames, audio_samplerate_hz),
{
    let frames: u32 = if audio_buffer_frames == 0 {
        audio_samplerate_hz / DEFAULT_SLICE_DIVISOR
    } else {
        audio_buffer_frames
    };
    (frames as u64) * 1_000_000 / (audio_samplerate_hz as u64)
}

} // verus!
