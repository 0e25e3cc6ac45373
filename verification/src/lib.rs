//! Multi-chain blockchain ingest with state-space interpolation for spiking
//! supervisors that step at 10 Hz.
//!
//! Slow chains report at heterogeneous rates; each channel is smoothed with the
//! first-order filter `x[k+1] = α·x[k] + (1 − α)·u[k]`, `α = exp(−Δt/τ)`.
//!
//! The library is generic in the sample type: it fixes when a channel snaps,
//! holds, blends or resets, which signal feeds which channel, and which
//! consensus event raises the reward, while the caller supplies the sample
//! arithmetic. Every constant of the library is an exact decimal, given here in
//! parts per ten thousand.
use vstd::prelude::*;

pub mod consensus_reward;
pub mod interpolator;
pub mod snapshot;

pub use consensus_reward::{EventCounters, RewardEvent, REWARD_CEILING_PERMYRIAD};
pub use interpolator::{ChannelInterpolator, InterpolatorBank, SignalClass};
pub use snapshot::TripleSnapshot;

verus! {

/// Denominator of every fixed decimal constant of the library (parts per ten thousand).
pub const PERMYRIAD: u32 = 10_000;

/// Length of one supervisor step in milliseconds (10 Hz).
pub const STEP_MILLIS: u32 = 100;

} // verus!
