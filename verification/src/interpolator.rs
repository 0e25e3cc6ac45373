//! State-space interpolation of slow signals up to the 10 Hz supervisor rate.
use vstd::prelude::*;

use crate::snapshot::TripleSnapshot;
use crate::{PERMYRIAD, STEP_MILLIS};

verus! {

/// Time constant classes for different signal dynamics.
#[derive(Debug, Clone, Copy, PartialEq, Eq, Structural)]
pub enum SignalClass {
    /// Fast hardware signals (power, temperature, hashrate): τ = 0.3 s.
    Hardware,
    /// Medium blockchain signals (Qubic ticks, gas price): τ = 1.0 s.
    Blockchain,
    /// Slow epoch signals (Quai blocks, epoch progress): τ = 3.0 s.
    SlowChain,
}

impl SignalClass {
    /// α of the class in parts per ten thousand: `exp(−0.1/τ)` rounded to four places.
    pub open spec fn alpha_spec(self) -> nat {
        match self {
            SignalClass::Hardware => 7165,
            SignalClass::Blockchain => 9048,
            SignalClass::SlowChain => 9672,
        }
    }

    /// τ of the class in milliseconds.
    pub open spec fn tau_spec(self) -> nat {
        match self {
            SignalClass::Hardware => 300,
            SignalClass::Blockchain => 1000,
            SignalClass::SlowChain => 3000,
        }
    }

    /// Smoothing factor α = exp(−Δt/τ) for Δt = 0.1 s, as parts per ten thousand.
    pub fn alpha_permyriad(self) -> (r: u32)
        ensures
            r == self.alpha_spec(),
    {
        match self {
            SignalClass::Hardware => 7165,
            SignalClass::Blockchain => 9048,
            SignalClass::SlowChain => 9672,
        }
    }

    /// Time constant τ in milliseconds.
    pub fn tau_millis(self) -> (r: u32)
        ensures
            r == self.tau_spec(),
    {
        match self {
            SignalClass::Hardware => 300,
            SignalClass::Blockchain => 1000,
            SignalClass::SlowChain => 3000,
        }
    }
}


/// `6τ³·(1 − x + x²/2 − x³/6)` for `x = Δt/τ`: six τ³ times the third-order
/// Taylor polynomial of `exp(−x)`, which is below `exp(−x)` for `x ≥ 0`.
pub open spec fn exp_neg_lower_scaled(dt: int, tau: int) -> int {
    6 * tau * tau * tau - 6 * dt * tau * tau + 3 * dt * dt * tau - dt * dt * dt
}

/// `24τ⁴·(1 − x + x²/2 − x³/6 + x⁴/24)` for `x = Δt/τ`: twenty-four τ⁴ times the
/// fourth-order Taylor polynomial of `exp(−x)`, which is above `exp(−x)` for `x ≥ 0`.
pub open spec fn exp_neg_upper_scaled(dt: int, tau: int) -> int {
    24 * tau * tau * tau * tau - 24 * dt * tau * tau * tau + 12 * dt * dt * tau * tau - 4 * dt * dt
        * dt * tau + dt * dt * dt * dt
}

/// `alpha / PERMYRIAD` is within one thousandth of every number between the
/// third- and fourth-order Taylor polynomials of `exp(−dt/tau)`:
/// `upper − 1/1000 ≤ α ≤ lower + 1/1000`. Those polynomials bracket `exp(−x)`
/// for `x ≥ 0` (the alternating-series bound, a fact outside this proof), so α
/// is then within one thousandth of `exp(−dt/tau)`.
pub open spec fn approximates_exp_neg(alpha: int, dt: int, tau: int) -> bool {
    &&& PERMYRIAD * exp_neg_upper_scaled(dt, tau) - 10 * (24 * tau * tau * tau * tau) <= alpha * (24
        * tau * tau * tau * tau)
    &&& alpha * (6 * tau * tau * tau) <= PERMYRIAD * exp_neg_lower_scaled(dt, tau) + 10 * (6 * tau
        * tau * tau)
}

/// Every class smooths with a proper fraction: `0 < α < 1`, so a step neither
/// ignores the observation nor overshoots it.
pub proof fn lemma_alpha_is_proper_fraction(c: SignalClass)
    ensures
        0 < c.alpha_spec() < PERMYRIAD,
{
}

/// A class with a longer time constant smooths harder (α grows with τ, as
/// `exp(−Δt/τ)` does).
pub proof fn lemma_alpha_grows_with_tau(a: SignalClass, b: SignalClass)
    requires
        a.tau_spec() < b.tau_spec(),
    ensures
        a.alpha_spec() < b.alpha_spec(),
{
}

/// The classes are ordered by time constant: Hardware, Blockchain, SlowChain.
pub proof fn lemma_classes_ordered_by_tau()
    ensures
        SignalClass::Hardware.tau_spec() < SignalClass::Blockchain.tau_spec(),
        SignalClass::Blockchain.tau_spec() < SignalClass::SlowChain.tau_spec(),
{
}

/// The tabulated α of each class is within one thousandth of the Taylor bracket
/// of `exp(−Δt/τ)` for the 10 Hz step.
pub proof fn lemma_alpha_matches_time_constant(c: SignalClass)
    ensures
        approximates_exp_neg(c.alpha_spec() as int, STEP_MILLIS as int, c.tau_spec() as int),
{
    match c {
        SignalClass::Hardware => {
            assert(approximates_exp_neg(7165, 100, 300));
        },
        SignalClass::Blockchain => {
            assert(approximates_exp_neg(9048, 100, 1000));
        },
        SignalClass::SlowChain => {
            assert(approximates_exp_neg(9672, 100, 3000));
        },
    }
}

/// Abstract state of a channel: its smoothing factor and, once a first
/// observation has arrived, the pair (interpolated level, latest observation).
pub struct ChannelState<S> {
    pub alpha: S,
    pub latest: Option<(S, S)>,
}

impl<S> ChannelState<S> {
    /// The interpolated level, if the channel has been observed.
    pub open spec fn level(self) -> Option<S> {
        match self.latest {
            Some((x, _)) => Some(x),
            None => None,
        }
    }

    /// The latest raw observation, if any.
    pub open spec fn target(self) -> Option<S> {
        match self.latest {
            Some((_, u)) => Some(u),
            None => None,
        }
    }

    /// A fresh channel snaps its level to the first observation (no cold-start
    /// ramp); afterwards an observation only replaces the target.
    pub open spec fn observed(self, value: S) -> ChannelState<S> {
        ChannelState {
            alpha: self.alpha,
            latest: match self.latest {
                None => Some((value, value)),
                Some((x, _)) => Some((x, value)),
            },
        }
    }

    /// An observed channel moves its level to `next` and keeps its target;
    /// a fresh channel stays as it is.
    pub open spec fn stepped(self, next: S) -> ChannelState<S> {
        ChannelState {
            alpha: self.alpha,
            latest: match self.latest {
                None => None,
                Some((_, u)) => Some((next, u)),
            },
        }
    }

    /// `after` is what one step with `blend` makes of this state, and `r` is what
    /// that step returns.
    pub open spec fn blended<F: Fn(S, S, S) -> S>(self, blend: F, r: Option<S>, after: ChannelState<S>) -> bool {
        match self.latest {
            None => r is None && after == self,
            Some((x, u)) => r matches Some(next) && blend.ensures((self.alpha, x, u), next)
                && after == self.stepped(next),
        }
    }

    /// `after` is this state after observing some result of `condition` on `reading`.
    pub open spec fn fed<F: Fn(Reading<S>) -> S>(self, after: ChannelState<S>, condition: F, reading: Reading<S>) -> bool {
        exists|v: S| condition.ensures((reading,), v) && after == self.observed(v)
    }

    /// The channel forgets its level and target; the smoothing factor stays.
    pub open spec fn cleared(self) -> ChannelState<S> {
        ChannelState { alpha: self.alpha, latest: None }
    }
}

/// A fresh channel snaps to its first observation: level and target are both
/// that observation, so there is no cold-start ramp from zero.
pub proof fn lemma_first_observation_snaps<S>(st: ChannelState<S>, v: S)
    requires
        st.latest is None,
    ensures
        st.observed(v).level() == Some(v),
        st.observed(v).target() == Some(v),
{
}

/// Once observed, a channel never jumps: a new observation replaces the target
/// and leaves the level where it was.
pub proof fn lemma_observation_holds_level<S>(st: ChannelState<S>, v: S)
    requires
        st.latest is Some,
    ensures
        st.observed(v).level() == st.level(),
        st.observed(v).target() == Some(v),
{
}

/// Stepping a channel that was never observed returns nothing and changes nothing.
pub proof fn lemma_unobserved_step_is_idle<S, F: Fn(S, S, S) -> S>(
    st: ChannelState<S>,
    blend: F,
    r: Option<S>,
    after: ChannelState<S>,
)
    requires
        st.latest is None,
        st.blended(blend, r, after),
    ensures
        r is None,
        after == st,
{
}

/// Steps never touch the latest observation: without new observations the
/// level keeps being blended toward the last known value.
pub proof fn lemma_step_keeps_last_observation<S, F: Fn(S, S, S) -> S>(
    st: ChannelState<S>,
    blend: F,
    r: Option<S>,
    after: ChannelState<S>,
)
    requires
        st.blended(blend, r, after),
    ensures
        after.target() == st.target(),
        after.level() == r,
{
}

/// After a reset the channel is fresh again, and its next observation snaps
/// the level, whatever the channel held before.
pub proof fn lemma_reset_then_observe_snaps<S>(st: ChannelState<S>, v: S)
    ensures
        st.cleared().latest is None,
        st.cleared().observed(v).level() == Some(v),
        st.cleared().observed(v).target() == Some(v),
{
}

/// No operation changes a channel's smoothing factor, and only a reset makes
/// an observed channel fresh again.
pub proof fn lemma_operations_keep_alpha<S, F: Fn(S, S, S) -> S>(
    st: ChannelState<S>,
    v: S,
    blend: F,
    r: Option<S>,
    after: ChannelState<S>,
)
    requires
        st.blended(blend, r, after),
    ensures
        st.observed(v).alpha == st.alpha,
        after.alpha == st.alpha,
        st.cleared().alpha == st.alpha,
        st.observed(v).latest is Some,
        (st.latest is Some) == (after.latest is Some),
{
}

/// Feeding a channel any converted reading leaves it observed, with the same
/// smoothing factor, and an already observed channel keeps its level.
pub proof fn lemma_fed_channel_is_observed<S, F: Fn(Reading<S>) -> S>(
    before: ChannelState<S>,
    after: ChannelState<S>,
    condition: F,
    reading: Reading<S>,
)
    requires
        before.fed(after, condition, reading),
    ensures
        after.latest is Some,
        after.alpha == before.alpha,
        before.latest is Some ==> after.level() == before.level(),
{
}

/// Single-channel first-order state-space interpolator over samples of type `S`.
///
/// The channel holds nothing until its first observation, snaps to it, and from
/// then on moves only by the caller's blend `x[k+1] = α·x[k] + (1 − α)·u[k]`.
#[derive(Debug, Clone, Copy)]
pub struct ChannelInterpolator<S> {
    alpha: S,
    latest: Option<(S, S)>,
}

impl<S> View for ChannelInterpolator<S> {
    type V = ChannelState<S>;

    closed spec fn view(&self) -> ChannelState<S> {
        ChannelState { alpha: self.alpha, latest: self.latest }
    }
}

impl<S: Copy> ChannelInterpolator<S> {
    /// A fresh channel that smooths with factor `alpha`.
    pub fn new(alpha: S) -> (ch: Self)
        ensures
            ch@ == (ChannelState { alpha, latest: None }),
    {
        ChannelInterpolator { alpha, latest: None }
    }

    /// Feed a new raw observation (irregular cadence).
    pub fn observe(&mut self, value: S)
        ensures
            final(self)@ == old(self)@.observed(value),
    {
        match self.latest {
            None => {
                self.latest = Some((value, value));
            },
            Some((x, _)) => {
                self.latest = Some((x, value));
            },
        }
    }

    /// Advance one 10 Hz step with `blend(α, level, observation)` and return
    /// the new level; a channel that has never been observed stays put and
    /// returns `None`.
    pub fn step<F: Fn(S, S, S) -> S>(&mut self, blend: &F) -> (r: Option<S>)
        requires
            forall|a: S, x: S, u: S| blend.requires((a, x, u)),
        ensures
            r == final(self)@.level(),
            old(self)@.blended(*blend, r, final(self)@),
    {
        match self.latest {
            None => None,
            Some((x, u)) => {
                let next = blend(self.alpha, x, u);
                self.latest = Some((next, u));
                Some(next)
            },
        }
    }

    /// Current interpolated level without advancing, if observed.
    pub fn value(&self) -> (r: Option<S>)
        ensures
            r == self@.level(),
    {
        match self.latest {
            Some((x, _)) => Some(x),
            None => None,
        }
    }

    /// True if at least one observation has been received since creation or reset.
    pub fn is_initialized(&self) -> (r: bool)
        ensures
            r == self@.latest is Some,
    {
        self.latest.is_some()
    }

    /// Forget level and observation (e.g. after a reconnection).
    pub fn reset(&mut self)
        ensures
            final(self)@ == old(self)@.cleared(),
    {
        self.latest = None;
    }
}


/// Number of interpolated channels in the triple-bridge bank.
///
/// Channel layout:
/// ```text
///  0: Dynex hashrate (MH/s)         — Hardware
///  1: Dynex power (W)               — Hardware
///  2: Dynex GPU temp (°C)           — Hardware
///  3: Qubic tick rate (ticks/s)     — Blockchain
///  4: Qubic epoch progress [0,1]    — SlowChain
///  5: QU price (USD)                — Blockchain
///  6: Quai gas price (gwei)         — SlowChain
///  7: Quai tx count                 — SlowChain
///  8: Quai block utilization [0,1]  — SlowChain
///  9: Neuraxon dopamine [0,1]       — Blockchain
/// 10: Neuraxon serotonin [0,1]      — Blockchain
/// 11: Neuraxon ITS (normalized)     — Blockchain
/// ```
pub const NUM_BRIDGE_CHANNELS: usize = 12;

/// Full scale of the Neuraxon ITS signal: channel 11 observes `its / 2000` clamped to [0, 1].
pub const ITS_FULL_SCALE: u32 = 2000;

/// What a bank channel observes from a snapshot, before conversion to a sample.
#[derive(Debug, Clone, Copy, PartialEq, Eq)]
pub enum Reading<S> {
    /// The sample as reported.
    Raw(S),
    /// An event count, converted to a sample.
    Count(u32),
    /// A sample clamped to the unit interval [0, 1].
    UnitFraction(S),
    /// A sample divided by the given full scale, then clamped to [0, 1].
    ScaledFraction(S, u32),
}

/// Signal class of bank channel `i`.
pub open spec fn channel_class(i: int) -> SignalClass {
    if 0 <= i < 3 {
        SignalClass::Hardware
    } else if i == 4 || (6 <= i && i <= 8) {
        SignalClass::SlowChain
    } else {
        SignalClass::Blockchain
    }
}

/// What bank channel `i` observes of `snap`.
pub open spec fn channel_reading<S>(snap: TripleSnapshot<S>, i: int) -> Reading<S> {
    if i == 0 {
        Reading::Raw(snap.dynex_hashrate_mh)
    } else if i == 1 {
        Reading::Raw(snap.dynex_power_w)
    } else if i == 2 {
        Reading::Raw(snap.dynex_gpu_temp_c)
    } else if i == 3 {
        Reading::Raw(snap.qubic_tick_rate)
    } else if i == 4 {
        Reading::Raw(snap.qubic_epoch_progress)
    } else if i == 5 {
        Reading::Raw(snap.qu_price_usd)
    } else if i == 6 {
        Reading::Raw(snap.quai_gas_price)
    } else if i == 7 {
        Reading::Count(snap.quai_tx_count)
    } else if i == 8 {
        Reading::Raw(snap.quai_block_utilization)
    } else if i == 9 {
        Reading::UnitFraction(snap.neuraxon_dopamine)
    } else if i == 10 {
        Reading::UnitFraction(snap.neuraxon_serotonin)
    } else {
        Reading::ScaledFraction(snap.neuraxon_its, ITS_FULL_SCALE)
    }
}

/// Signal class of bank channel `i`.
pub fn class_of_channel(i: usize) -> (c: SignalClass)
    requires
        i < NUM_BRIDGE_CHANNELS,
    ensures
        c == channel_class(i as int),
{
    if i < 3 {
        SignalClass::Hardware
    } else if i == 4 || (6 <= i && i <= 8) {
        SignalClass::SlowChain
    } else {
        SignalClass::Blockchain
    }
}

/// What bank channel `i` observes of `snap`.
pub fn reading_of_channel<S: Copy>(snap: &TripleSnapshot<S>, i: usize) -> (r: Reading<S>)
    requires
        i < NUM_BRIDGE_CHANNELS,
    ensures
        r == channel_reading(*snap, i as int),
{
    if i == 0 {
        Reading::Raw(snap.dynex_hashrate_mh)
    } else if i == 1 {
        Reading::Raw(snap.dynex_power_w)
    } else if i == 2 {
        Reading::Raw(snap.dynex_gpu_temp_c)
    } else if i == 3 {
        Reading::Raw(snap.qubic_tick_rate)
    } else if i == 4 {
        Reading::Raw(snap.qubic_epoch_progress)
    } else if i == 5 {
        Reading::Raw(snap.qu_price_usd)
    } else if i == 6 {
        Reading::Raw(snap.quai_gas_price)
    } else if i == 7 {
        Reading::Count(snap.quai_tx_count)
    } else if i == 8 {
        Reading::Raw(snap.quai_block_utilization)
    } else if i == 9 {
        Reading::UnitFraction(snap.neuraxon_dopamine)
    } else if i == 10 {
        Reading::UnitFraction(snap.neuraxon_serotonin)
    } else {
        Reading::ScaledFraction(snap.neuraxon_its, ITS_FULL_SCALE)
    }
}

/// The channel table: what each bank channel observes of a snapshot, field by
/// field. Counts are taken whole, the Neuraxon dopamine and serotonin are
/// clamped to the unit interval, and the ITS is scaled by 2000 then clamped.
pub proof fn lemma_channel_readings<S>(snap: TripleSnapshot<S>)
    ensures
        channel_reading(snap, 0) == Reading::Raw(snap.dynex_hashrate_mh),
        channel_reading(snap, 1) == Reading::Raw(snap.dynex_power_w),
        channel_reading(snap, 2) == Reading::Raw(snap.dynex_gpu_temp_c),
        channel_reading(snap, 3) == Reading::Raw(snap.qubic_tick_rate),
        channel_reading(snap, 4) == Reading::Raw(snap.qubic_epoch_progress),
        channel_reading(snap, 5) == Reading::Raw(snap.qu_price_usd),
        channel_reading(snap, 6) == Reading::Raw(snap.quai_gas_price),
        channel_reading(snap, 7) == Reading::<S>::Count(snap.quai_tx_count),
        channel_reading(snap, 8) == Reading::Raw(snap.quai_block_utilization),
        channel_reading(snap, 9) == Reading::UnitFraction(snap.neuraxon_dopamine),
        channel_reading(snap, 10) == Reading::UnitFraction(snap.neuraxon_serotonin),
        channel_reading(snap, 11) == Reading::ScaledFraction(snap.neuraxon_its, 2000),
{
}

/// The class table of the bank: channels 0–2 are Hardware; 3, 5 and 9–11 are
/// Blockchain; 4 and 6–8 are SlowChain.
pub proof fn lemma_channel_classes()
    ensures
        forall|i: int| 0 <= i < 3 ==> #[trigger] channel_class(i) == SignalClass::Hardware,
        channel_class(3) == SignalClass::Blockchain,
        channel_class(4) == SignalClass::SlowChain,
        channel_class(5) == SignalClass::Blockchain,
        forall|i: int| 6 <= i <= 8 ==> #[trigger] channel_class(i) == SignalClass::SlowChain,
        forall|i: int| 9 <= i < 12 ==> #[trigger] channel_class(i) == SignalClass::Blockchain,
{
}

/// Multi-channel interpolator bank for all triple-bridge signals, laid out as
/// [`NUM_BRIDGE_CHANNELS`] describes.
pub struct InterpolatorBank<S> {
    channels: [ChannelInterpolator<S>; NUM_BRIDGE_CHANNELS],
}

impl<S> View for InterpolatorBank<S> {
    type V = Seq<ChannelState<S>>;

    closed spec fn view(&self) -> Seq<ChannelState<S>> {
        self.channels@.map_values(|c: ChannelInterpolator<S>| c@)
    }
}

impl<S> InterpolatorBank<S> {
    /// A bank always holds exactly [`NUM_BRIDGE_CHANNELS`] channels.
    pub proof fn lemma_has_every_channel(&self)
        ensures
            self@.len() == NUM_BRIDGE_CHANNELS,
    {
    }

    /// The abstract state determines the bank: two banks with the same view are
    /// the same bank, so they answer every later call alike.
    pub proof fn lemma_view_determines_bank(b1: &Self, b2: &Self)
        requires
            b1@ == b2@,
        ensures
            *b1 == *b2,
    {
        assert forall|i: int| 0 <= i < NUM_BRIDGE_CHANNELS implies b1.channels@[i] == b2.channels@[i] by {
            let (c1, c2) = (b1.channels@[i], b2.channels@[i]);
            assert(b1@[i] == c1@ && b2@[i] == c2@);
            assert(c1.alpha == c2.alpha && c1.latest == c2.latest);
        }
        assert(b1.channels =~= b2.channels);
    }
}

/// `s1` and `s2` agree on the twelve fields that the bank reads.
pub open spec fn agree_on_bank_fields<S>(s1: TripleSnapshot<S>, s2: TripleSnapshot<S>) -> bool {
    &&& s1.dynex_hashrate_mh == s2.dynex_hashrate_mh
    &&& s1.dynex_power_w == s2.dynex_power_w
    &&& s1.dynex_gpu_temp_c == s2.dynex_gpu_temp_c
    &&& s1.qubic_tick_rate == s2.qubic_tick_rate
    &&& s1.qubic_epoch_progress == s2.qubic_epoch_progress
    &&& s1.qu_price_usd == s2.qu_price_usd
    &&& s1.quai_gas_price == s2.quai_gas_price
    &&& s1.quai_tx_count == s2.quai_tx_count
    &&& s1.quai_block_utilization == s2.quai_block_utilization
    &&& s1.neuraxon_dopamine == s2.neuraxon_dopamine
    &&& s1.neuraxon_serotonin == s2.neuraxon_serotonin
    &&& s1.neuraxon_its == s2.neuraxon_its
}

/// `condition` gives at most one sample for each reading.
pub open spec fn single_valued<S, F: Fn(Reading<S>) -> S>(condition: F) -> bool {
    forall|r: Reading<S>, v1: S, v2: S|
        condition.ensures((r,), v1) && condition.ensures((r,), v2) ==> v1 == v2
}

/// `after` is the bank state `before` once every channel has been fed its
/// reading of `snap`, converted by `condition`.
pub open spec fn bank_fed<S, F: Fn(Reading<S>) -> S>(
    before: Seq<ChannelState<S>>,
    after: Seq<ChannelState<S>>,
    snap: TripleSnapshot<S>,
    condition: F,
) -> bool {
    &&& after.len() == NUM_BRIDGE_CHANNELS
    &&& forall|i: int|
        0 <= i < NUM_BRIDGE_CHANNELS ==> before[i].fed(
            #[trigger] after[i],
            condition,
            channel_reading(snap, i),
        )
}

/// Snapshots that agree on the twelve fields the bank reads give every channel
/// the same reading.
pub proof fn lemma_bank_reads_only_its_fields<S>(s1: TripleSnapshot<S>, s2: TripleSnapshot<S>)
    requires
        agree_on_bank_fields(s1, s2),
    ensures
        forall|i: int| 0 <= i < NUM_BRIDGE_CHANNELS ==> #[trigger] channel_reading(s1, i) == channel_reading(s2, i),
{
}

/// A bank observe depends only on the twelve fields read: from the same state,
/// with a conversion that gives one sample per reading, snapshots that agree on
/// those fields lead to the same state.
pub proof fn lemma_observe_depends_only_on_read_fields<S, F: Fn(Reading<S>) -> S>(
    before: Seq<ChannelState<S>>,
    after1: Seq<ChannelState<S>>,
    after2: Seq<ChannelState<S>>,
    s1: TripleSnapshot<S>,
    s2: TripleSnapshot<S>,
    condition: F,
)
    requires
        agree_on_bank_fields(s1, s2),
        single_valued(condition),
        bank_fed(before, after1, s1, condition),
        bank_fed(before, after2, s2, condition),
    ensures
        after1 == after2,
{
    lemma_bank_reads_only_its_fields(s1, s2);
    assert forall|i: int| 0 <= i < NUM_BRIDGE_CHANNELS implies after1[i] == after2[i] by {
        let r = channel_reading(s1, i);
        assert(channel_reading(s2, i) == r);
        assert(before[i].fed(after1[i], condition, r));
        assert(before[i].fed(after2[i], condition, r));
        let v1 = choose|v: S| condition.ensures((r,), v) && after1[i] == before[i].observed(v);
        let v2 = choose|v: S| condition.ensures((r,), v) && after2[i] == before[i].observed(v);
        assert(v1 == v2);
    }
    assert(after1 =~= after2);
}

impl<S: Copy> InterpolatorBank<S> {
    /// A bank of fresh channels, channel `i` smoothing with `alpha_of` of its class.
    pub fn new<F: Fn(SignalClass) -> S>(alpha_of: F) -> (bank: Self)
        requires
            forall|c: SignalClass| alpha_of.requires((c,)),
        ensures
            bank@.len() == NUM_BRIDGE_CHANNELS,
            forall|i: int|
                0 <= i < NUM_BRIDGE_CHANNELS ==> {
                    &&& bank@[i].latest is None
                    &&& alpha_of.ensures((channel_class(i),), #[trigger] bank@[i].alpha)
                },
            forall|i: int, j: int|
                0 <= i < NUM_BRIDGE_CHANNELS && 0 <= j < NUM_BRIDGE_CHANNELS && channel_class(i)
                    == channel_class(j) ==> #[trigger] bank@[i].alpha == #[trigger] bank@[j].alpha,
    {
        let hardware = alpha_of(SignalClass::Hardware);
        let blockchain = alpha_of(SignalClass::Blockchain);
        let slow_chain = alpha_of(SignalClass::SlowChain);
        let bank = InterpolatorBank {
            channels: [
                ChannelInterpolator::new(hardware),  // 0 dynex hashrate
                ChannelInterpolator::new(hardware),  // 1 dynex power
                ChannelInterpolator::new(hardware),  // 2 dynex temp
                ChannelInterpolator::new(blockchain),  // 3 qubic tick rate
                ChannelInterpolator::new(slow_chain),  // 4 qubic epoch
                ChannelInterpolator::new(blockchain),  // 5 qu price
                ChannelInterpolator::new(slow_chain),  // 6 quai gas
                ChannelInterpolator::new(slow_chain),  // 7 quai tx count
                ChannelInterpolator::new(slow_chain),  // 8 quai block util
                ChannelInterpolator::new(blockchain),  // 9 neuraxon dopamine
                ChannelInterpolator::new(blockchain),  // 10 neuraxon serotonin
                ChannelInterpolator::new(blockchain),  // 11 neuraxon its
            ],
        };
        bank
    }

    /// Feed every channel its reading of `snap`, converted to a sample by `condition`.
    pub fn observe<F: Fn(Reading<S>) -> S>(&mut self, snap: &TripleSnapshot<S>, condition: F)
        requires
            forall|r: Reading<S>| condition.requires((r,)),
        ensures
            bank_fed(old(self)@, final(self)@, *snap, condition),
    {
        proof {
            self.lemma_has_every_channel();
        }
        let ghost before = self@;
        let mut i: usize = 0;
        while i < NUM_BRIDGE_CHANNELS
            invariant
                i <= NUM_BRIDGE_CHANNELS,
                self@.len() == NUM_BRIDGE_CHANNELS,
                before.len() == NUM_BRIDGE_CHANNELS,
                forall|r: Reading<S>| condition.requires((r,)),
                forall|j: int| i <= j < NUM_BRIDGE_CHANNELS ==> #[trigger] self@[j] == before[j],
                forall|j: int|
                    0 <= j < i ==> before[j].fed(#[trigger] self@[j], condition, channel_reading(*snap, j)),
            decreases NUM_BRIDGE_CHANNELS - i,
        {
            let v = condition(reading_of_channel(snap, i));
            let ghost prev = self@;
            let mut ch = self.channels[i];
            ch.observe(v);
            self.channels[i] = ch;
            proof {
                assert(self@ =~= prev.update(i as int, prev[i as int].observed(v)));
                assert(before[i as int].fed(self@[i as int], condition, channel_reading(*snap, i as int)));
                assert forall|j: int| 0 <= j < i implies #[trigger] self@[j] == prev[j] by {}
            }
            i = i + 1;
        }
    }

    /// Advance every channel one 10 Hz step with `blend`; entry `i` is what
    /// channel `i` returns (`None` for a channel never observed).
    pub fn step<F: Fn(S, S, S) -> S>(&mut self, blend: F) -> (out: [Option<S>; NUM_BRIDGE_CHANNELS])
        requires
            forall|a: S, x: S, u: S| blend.requires((a, x, u)),
        ensures
            final(self)@.len() == NUM_BRIDGE_CHANNELS,
            forall|i: int|
                0 <= i < NUM_BRIDGE_CHANNELS ==> old(self)@[i].blended(
                    blend,
                    out@[i],
                    #[trigger] final(self)@[i],
                ),
    {
        let ghost before = self@;
        let mut out: [Option<S>; NUM_BRIDGE_CHANNELS] = [None; NUM_BRIDGE_CHANNELS];
        let mut i: usize = 0;
        while i < NUM_BRIDGE_CHANNELS
            invariant
                i <= NUM_BRIDGE_CHANNELS,
                self@.len() == NUM_BRIDGE_CHANNELS,
                before.len() == NUM_BRIDGE_CHANNELS,
                forall|a: S, x: S, u: S| blend.requires((a, x, u)),
                forall|j: int| i <= j < NUM_BRIDGE_CHANNELS ==> #[trigger] self@[j] == before[j],
                forall|j: int|
                    0 <= j < i ==> before[j].blended(blend, out@[j], #[trigger] self@[j]),
            decreases NUM_BRIDGE_CHANNELS - i,
        {
            let ghost prev = self@;
            let ghost prev_out = out@;
            let mut ch = self.channels[i];
            let r = ch.step(&blend);
            self.channels[i] = ch;
            out[i] = r;
            proof {
                assert(self@ =~= prev.update(i as int, ch@));
                assert(out@ =~= prev_out.update(i as int, r));
                assert(prev[i as int] == before[i as int]);
                assert(before[i as int].blended(blend, r, ch@));
                assert(before[i as int].blended(blend, out@[i as int], self@[i as int]));
                assert forall|j: int| 0 <= j < i implies #[trigger] self@[j] == prev[j] && out@[j]
                    == prev_out[j] by {}
            }
            i = i + 1;
        }
        out
    }

    /// Current level of every channel, without advancing.
    pub fn values(&self) -> (out: [Option<S>; NUM_BRIDGE_CHANNELS])
        ensures
            forall|i: int| 0 <= i < NUM_BRIDGE_CHANNELS ==> #[trigger] out@[i] == self@[i].level(),
    {
        proof {
            self.lemma_has_every_channel();
        }
        let mut out: [Option<S>; NUM_BRIDGE_CHANNELS] = [None; NUM_BRIDGE_CHANNELS];
        let mut i: usize = 0;
        while i < NUM_BRIDGE_CHANNELS
            invariant
                i <= NUM_BRIDGE_CHANNELS,
                self@.len() == NUM_BRIDGE_CHANNELS,
                forall|j: int| 0 <= j < i ==> #[trigger] out@[j] == self@[j].level(),
            decreases NUM_BRIDGE_CHANNELS - i,
        {
            let ghost prev_out = out@;
            out[i] = self.channels[i].value();
            proof {
                assert(out@ =~= prev_out.update(i as int, self@[i as int].level()));
            }
            i = i + 1;
        }
        out
    }

    /// Reset every channel (e.g. after a reconnection).
    pub fn reset(&mut self)
        ensures
            final(self)@.len() == NUM_BRIDGE_CHANNELS,
            forall|i: int|
                0 <= i < NUM_BRIDGE_CHANNELS ==> #[trigger] final(self)@[i] == old(self)@[i].cleared(),
    {
        proof {
            self.lemma_has_every_channel();
        }
        let ghost before = self@;
        let mut i: usize = 0;
        while i < NUM_BRIDGE_CHANNELS
            invariant
                i <= NUM_BRIDGE_CHANNELS,
                self@.len() == NUM_BRIDGE_CHANNELS,
                before.len() == NUM_BRIDGE_CHANNELS,
                forall|j: int| i <= j < NUM_BRIDGE_CHANNELS ==> #[trigger] self@[j] == before[j],
                forall|j: int| 0 <= j < i ==> #[trigger] self@[j] == before[j].cleared(),
            decreases NUM_BRIDGE_CHANNELS - i,
        {
            let ghost prev = self@;
            let mut ch = self.channels[i];
            ch.reset();
            self.channels[i] = ch;
            proof {
                assert(self@ =~= prev.update(i as int, prev[i as int].cleared()));
            }
            i = i + 1;
        }
    }
}

} // verus!
