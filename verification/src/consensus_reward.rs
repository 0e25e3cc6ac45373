//! Consensus reward: turns a node's "successful solve" events into dopamine
//! events for reward-modulated learning.
//!
//! | Event                | Magnitude | Frequency  |
//! |----------------------|-----------|------------|
//! | Qubic solution       | 1.0       | Rare       |
//! | Quai block mined     | 0.8       | Occasional |
//! | Dynex share accepted | 0.3       | Frequent   |
//!
//! A Qubic solution sets the dopamine level outright; the other events raise it
//! to at least their magnitude. The level then decays with τ = 0.5 s per 10 Hz
//! step and is floored to zero below 1e-4. All magnitudes and factors are
//! exact decimals in parts per ten thousand.
use vstd::prelude::*;

use crate::interpolator::approximates_exp_neg;
use crate::snapshot::TripleSnapshot;
use crate::{PERMYRIAD, STEP_MILLIS};

verus! {

/// Decay time constant of the dopamine level, in milliseconds.
pub const DOPAMINE_TAU_MILLIS: u32 = 500;

/// Dopamine decay per 10 Hz step, `exp(−0.1/0.5) ≈ 0.8187`, in parts per ten thousand.
pub const DOPAMINE_DECAY_PERMYRIAD: u32 = 8187;

/// Level below which dopamine is flushed to zero (1e-4), in parts per ten thousand.
pub const DOPAMINE_FLOOR_PERMYRIAD: u32 = 1;

/// Highest dopamine level an injection can reach (1.0), in parts per ten thousand.
pub const DOPAMINE_CAP_PERMYRIAD: u32 = 10_000;

/// Maximum combined reward (synthetic + dopamine), 1.5, in parts per ten thousand.
/// It allows a transient overshoot that makes consensus events salient.
pub const REWARD_CEILING_PERMYRIAD: u32 = 15_000;

/// A consensus event that releases dopamine.
#[derive(Debug, Clone, Copy, PartialEq, Eq, Structural)]
pub enum RewardEvent {
    /// A Qubic computation solution was validated.
    QubicSolution,
    /// A Quai block was mined.
    QuaiBlock,
    /// A Dynex share was accepted.
    DynexShare,
}

impl RewardEvent {
    /// Reward magnitude of the event in parts per ten thousand.
    pub open spec fn magnitude_spec(self) -> nat {
        match self {
            RewardEvent::QubicSolution => 10_000,
            RewardEvent::QuaiBlock => 8000,
            RewardEvent::DynexShare => 3000,
        }
    }

    /// Whether the event sets the dopamine level outright; the others raise
    /// the level to at least their magnitude.
    pub open spec fn replaces_spec(self) -> bool {
        self == RewardEvent::QubicSolution
    }

    /// Reward magnitude of the event in parts per ten thousand.
    pub fn magnitude_permyriad(self) -> (r: u32)
        ensures
            r == self.magnitude_spec(),
    {
        match self {
            RewardEvent::QubicSolution => 10_000,
            RewardEvent::QuaiBlock => 8000,
            RewardEvent::DynexShare => 3000,
        }
    }

    /// Whether the event sets the dopamine level outright rather than raising it.
    pub fn replaces_level(self) -> (r: bool)
        ensures
            r == self.replaces_spec(),
    {
        match self {
            RewardEvent::QubicSolution => true,
            _ => false,
        }
    }
}

/// The event a polling cycle counts: a Qubic solution over a Quai block over a
/// Dynex share; at most one per cycle.
pub open spec fn detected_event(qubic_solution: bool, quai_block: bool, dynex_share: bool) -> Option<RewardEvent> {
    if qubic_solution {
        Some(RewardEvent::QubicSolution)
    } else if quai_block {
        Some(RewardEvent::QuaiBlock)
    } else if dynex_share {
        Some(RewardEvent::DynexShare)
    } else {
        None
    }
}

/// The event that `snap` reports.
pub open spec fn snapshot_event<S>(snap: TripleSnapshot<S>) -> Option<RewardEvent> {
    detected_event(snap.qubic_solution_found, snap.quai_block_mined, snap.dynex_share_found)
}

/// The event that `snap` reports, by priority.
pub fn detect_event<S>(snap: &TripleSnapshot<S>) -> (e: Option<RewardEvent>)
    ensures
        e == snapshot_event(*snap),
{
    if snap.qubic_solution_found {
        Some(RewardEvent::QubicSolution)
    } else if snap.quai_block_mined {
        Some(RewardEvent::QuaiBlock)
    } else if snap.dynex_share_found {
        Some(RewardEvent::DynexShare)
    } else {
        None
    }
}

/// The level after an event, before decay: a replacing event sets it to the
/// event's `magnitude`, another event raises it with `max`, no event keeps it.
pub open spec fn raised_level<S, X: Fn(S, S) -> S>(
    level: S,
    event: Option<RewardEvent>,
    magnitude: S,
    max: X,
    raised: S,
) -> bool {
    match event {
        None => raised == level,
        Some(e) => if e.replaces_spec() {
            raised == magnitude
        } else {
            max.ensures((level, magnitude), raised)
        },
    }
}

/// One 10 Hz step of the dopamine level, in the sample type `S`.
///
/// The event sets or raises the level to its magnitude, the level is then
/// multiplied by the decay factor, and a result below the floor becomes zero.
/// `decimal` turns parts per ten thousand into a sample; `max`, `scale`
/// (multiplication) and `less` are the sample arithmetic.
pub fn next_level<
    S: Copy,
    C: Fn(u32) -> S,
    X: Fn(S, S) -> S,
    M: Fn(S, S) -> S,
    L: Fn(S, S) -> bool,
>(level: S, event: Option<RewardEvent>, decimal: C, max: X, scale: M, less: L) -> (r: S)
    requires
        forall|p: u32| decimal.requires((p,)),
        forall|a: S, b: S| max.requires((a, b)),
        forall|a: S, b: S| scale.requires((a, b)),
        forall|a: S, b: S| less.requires((a, b)),
    ensures
        exists|magnitude: S, raised: S, factor: S, decayed: S, floor: S, below: bool|
            {
                &&& (event matches Some(e) ==> decimal.ensures(
                    (e.magnitude_spec() as u32,),
                    magnitude,
                ))
                &&& raised_level(level, event, magnitude, max, raised)
                &&& decimal.ensures((DOPAMINE_DECAY_PERMYRIAD,), factor)
                &&& scale.ensures((raised, factor), decayed)
                &&& decimal.ensures((DOPAMINE_FLOOR_PERMYRIAD,), floor)
                &&& less.ensures((decayed, floor), below)
                &&& below ==> decimal.ensures((0u32,), r)
                &&& !below ==> r == decayed
            },
{
    let ghost mut magnitude: S = level;
    let raised = match event {
        None => level,
        Some(e) => {
            let m = decimal(e.magnitude_permyriad());
            proof {
                magnitude = m;
            }
            if e.replaces_level() {
                m
            } else {
                max(level, m)
            }
        },
    };
    let factor = decimal(DOPAMINE_DECAY_PERMYRIAD);
    let decayed = scale(raised, factor);
    let floor = decimal(DOPAMINE_FLOOR_PERMYRIAD);
    let below = less(decayed, floor);
    let r = if below {
        decimal(0)
    } else {
        decayed
    };
    assert(raised_level(level, event, magnitude, max, raised));
    r
}

/// Cumulative counters of consensus events, for logging and diagnostics.
#[derive(Debug, Clone, Copy, PartialEq, Eq, Structural)]
pub struct EventCounters {
    pub dynex_shares: u64,
    pub quai_blocks: u64,
    pub qubic_solutions: u64,
}

impl EventCounters {
    /// The counter that `e` advances.
    pub open spec fn count_of(self, e: RewardEvent) -> u64 {
        match e {
            RewardEvent::QubicSolution => self.qubic_solutions,
            RewardEvent::QuaiBlock => self.quai_blocks,
            RewardEvent::DynexShare => self.dynex_shares,
        }
    }

    /// Whether counting `e` stays within `u64`.
    pub open spec fn has_room_for(self, e: Option<RewardEvent>) -> bool {
        match e {
            Some(ev) => self.count_of(ev) < u64::MAX,
            None => true,
        }
    }

    /// These counters after counting `e` (nothing for `None`).
    pub open spec fn counted(self, e: Option<RewardEvent>) -> EventCounters {
        match e {
            Some(RewardEvent::QubicSolution) => EventCounters {
                qubic_solutions: (self.qubic_solutions + 1) as u64,
                ..self
            },
            Some(RewardEvent::QuaiBlock) => EventCounters {
                quai_blocks: (self.quai_blocks + 1) as u64,
                ..self
            },
            Some(RewardEvent::DynexShare) => EventCounters {
                dynex_shares: (self.dynex_shares + 1) as u64,
                ..self
            },
            None => self,
        }
    }

    /// All counters at zero.
    pub fn new() -> (c: Self)
        ensures
            c == (EventCounters { dynex_shares: 0, quai_blocks: 0, qubic_solutions: 0 }),
    {
        EventCounters { dynex_shares: 0, quai_blocks: 0, qubic_solutions: 0 }
    }

    /// Whether the event that `snap` reports can be counted without overflow.
    pub fn can_record<S>(&self, snap: &TripleSnapshot<S>) -> (r: bool)
        ensures
            r == self.has_room_for(snapshot_event(*snap)),
    {
        match detect_event(snap) {
            Some(RewardEvent::QubicSolution) => self.qubic_solutions < u64::MAX,
            Some(RewardEvent::QuaiBlock) => self.quai_blocks < u64::MAX,
            Some(RewardEvent::DynexShare) => self.dynex_shares < u64::MAX,
            None => true,
        }
    }

    /// Count the event that `snap` reports and return it.
    pub fn record<S>(&mut self, snap: &TripleSnapshot<S>) -> (e: Option<RewardEvent>)
        requires
            old(self).has_room_for(snapshot_event(*snap)),
        ensures
            e == snapshot_event(*snap),
            *final(self) == old(self).counted(e),
    {
        let e = detect_event(snap);
        match e {
            Some(RewardEvent::QubicSolution) => {
                self.qubic_solutions = self.qubic_solutions + 1;
            },
            Some(RewardEvent::QuaiBlock) => {
                self.quai_blocks = self.quai_blocks + 1;
            },
            Some(RewardEvent::DynexShare) => {
                self.dynex_shares = self.dynex_shares + 1;
            },
            None => {},
        }
        e
    }
}

/// At most one event counts per cycle, by priority: a Qubic solution overrides
/// a Quai block, which overrides a Dynex share.
pub proof fn lemma_event_priority(qubic_solution: bool, quai_block: bool, dynex_share: bool)
    ensures
        qubic_solution ==> detected_event(qubic_solution, quai_block, dynex_share) == Some(
            RewardEvent::QubicSolution,
        ),
        !qubic_solution && quai_block ==> detected_event(qubic_solution, quai_block, dynex_share)
            == Some(RewardEvent::QuaiBlock),
        !qubic_solution && !quai_block && dynex_share ==> detected_event(
            qubic_solution,
            quai_block,
            dynex_share,
        ) == Some(RewardEvent::DynexShare),
        detected_event(qubic_solution, quai_block, dynex_share) is None <==> !qubic_solution
            && !quai_block && !dynex_share,
{
}

/// The event of a snapshot, by its flags: a validated Qubic solution counts
/// whatever else was found; a mined Quai block counts unless a Qubic solution
/// did; a Dynex share counts only alone; no flag, no event.
pub proof fn lemma_snapshot_event_priority<S>(snap: TripleSnapshot<S>)
    ensures
        snap.qubic_solution_found ==> snapshot_event(snap) == Some(RewardEvent::QubicSolution),
        !snap.qubic_solution_found && snap.quai_block_mined ==> snapshot_event(snap) == Some(
            RewardEvent::QuaiBlock,
        ),
        !snap.qubic_solution_found && !snap.quai_block_mined && snap.dynex_share_found
            ==> snapshot_event(snap) == Some(RewardEvent::DynexShare),
        !snap.qubic_solution_found && !snap.quai_block_mined && !snap.dynex_share_found
            ==> snapshot_event(snap) is None,
{
}

/// Room to count is refused only at the `u64` limit: below it every event can
/// be counted, and a cycle without an event always can.
pub proof fn lemma_room_until_counter_limit(c: EventCounters)
    ensures
        c.has_room_for(None),
        c.qubic_solutions < u64::MAX <==> c.has_room_for(Some(RewardEvent::QubicSolution)),
        c.quai_blocks < u64::MAX <==> c.has_room_for(Some(RewardEvent::QuaiBlock)),
        c.dynex_shares < u64::MAX <==> c.has_room_for(Some(RewardEvent::DynexShare)),
{
}

/// Counting an event adds one to its own counter, field by field, and leaves
/// the other two alone; a cycle without an event changes nothing.
pub proof fn lemma_counted_fields(c: EventCounters)
    requires
        c.dynex_shares < u64::MAX,
        c.quai_blocks < u64::MAX,
        c.qubic_solutions < u64::MAX,
    ensures
        c.counted(None) == c,
        c.counted(Some(RewardEvent::QubicSolution)).qubic_solutions == c.qubic_solutions + 1,
        c.counted(Some(RewardEvent::QubicSolution)).quai_blocks == c.quai_blocks,
        c.counted(Some(RewardEvent::QubicSolution)).dynex_shares == c.dynex_shares,
        c.counted(Some(RewardEvent::QuaiBlock)).quai_blocks == c.quai_blocks + 1,
        c.counted(Some(RewardEvent::QuaiBlock)).qubic_solutions == c.qubic_solutions,
        c.counted(Some(RewardEvent::QuaiBlock)).dynex_shares == c.dynex_shares,
        c.counted(Some(RewardEvent::DynexShare)).dynex_shares == c.dynex_shares + 1,
        c.counted(Some(RewardEvent::DynexShare)).qubic_solutions == c.qubic_solutions,
        c.counted(Some(RewardEvent::DynexShare)).quai_blocks == c.quai_blocks,
{
}

/// Counting advances exactly the counter of the event, by one, and no other:
/// the counters never decrease and their sum grows by the number of events.
pub proof fn lemma_counting_is_exact(c: EventCounters, e: Option<RewardEvent>)
    requires
        c.has_room_for(e),
    ensures
        c.counted(e).dynex_shares >= c.dynex_shares,
        c.counted(e).quai_blocks >= c.quai_blocks,
        c.counted(e).qubic_solutions >= c.qubic_solutions,
        c.counted(e).dynex_shares + c.counted(e).quai_blocks + c.counted(e).qubic_solutions
            == c.dynex_shares + c.quai_blocks + c.qubic_solutions + (if e is Some {
            1int
        } else {
            0int
        }),
        forall|ev: RewardEvent| e == Some(ev) ==> #[trigger] c.counted(e).count_of(ev) == c.count_of(ev) + 1,
{
}

/// The reward hierarchy: Qubic solution (1.0) > Quai block (0.8) > Dynex share
/// (0.3) > 0; no event exceeds the dopamine cap of 1.0, which is below the
/// reward ceiling of 1.5; only a Qubic solution replaces the level.
pub proof fn lemma_reward_hierarchy()
    ensures
        RewardEvent::QubicSolution.magnitude_spec() > RewardEvent::QuaiBlock.magnitude_spec(),
        RewardEvent::QuaiBlock.magnitude_spec() > RewardEvent::DynexShare.magnitude_spec(),
        RewardEvent::DynexShare.magnitude_spec() > 0,
        forall|e: RewardEvent| #[trigger] e.magnitude_spec() <= DOPAMINE_CAP_PERMYRIAD,
        DOPAMINE_CAP_PERMYRIAD == PERMYRIAD,
        DOPAMINE_CAP_PERMYRIAD < REWARD_CEILING_PERMYRIAD,
        RewardEvent::QubicSolution.magnitude_spec() == DOPAMINE_CAP_PERMYRIAD,
        RewardEvent::QuaiBlock.magnitude_spec() * 10 == DOPAMINE_CAP_PERMYRIAD * 8,
        RewardEvent::DynexShare.magnitude_spec() * 10 == DOPAMINE_CAP_PERMYRIAD * 3,
        REWARD_CEILING_PERMYRIAD * 2 == DOPAMINE_CAP_PERMYRIAD * 3,
        forall|e: RewardEvent| #[trigger] e.replaces_spec() <==> e == RewardEvent::QubicSolution,
{
}

/// The decay factor is a proper fraction and lies within one thousandth of the
/// Taylor bracket of `exp(−Δt/τ)` for the 10 Hz step and τ = 0.5 s.
pub proof fn lemma_decay_matches_time_constant()
    ensures
        0 < DOPAMINE_DECAY_PERMYRIAD < PERMYRIAD,
        approximates_exp_neg(
            DOPAMINE_DECAY_PERMYRIAD as int,
            STEP_MILLIS as int,
            DOPAMINE_TAU_MILLIS as int,
        ),
{
    assert(approximates_exp_neg(8187, 100, 500));
}

} // verus!
