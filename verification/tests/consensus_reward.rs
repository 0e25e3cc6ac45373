use spikenaut_ingest::consensus_reward::{
    detect_event, next_level, DOPAMINE_CAP_PERMYRIAD, DOPAMINE_DECAY_PERMYRIAD, DOPAMINE_FLOOR_PERMYRIAD,
    DOPAMINE_TAU_MILLIS,
};
use spikenaut_ingest::{EventCounters, RewardEvent, TripleSnapshot, PERMYRIAD, REWARD_CEILING_PERMYRIAD};

fn decimal(parts: u32) -> f32 {
    parts as f32 / PERMYRIAD as f32
}

const DYNEX_SHARE_REWARD: f32 = 0.3;
const DOPAMINE_DECAY: f32 = 0.8187;

/// An f32 dopamine level driven by the library's counters and `next_level`.
struct Tracker {
    dopamine: f32,
    counters: EventCounters,
}

impl Tracker {
    fn new() -> Self {
        Tracker { dopamine: 0.0, counters: EventCounters::new() }
    }

    fn update(&mut self, snap: &TripleSnapshot<f32>) -> f32 {
        assert!(self.counters.can_record(snap));
        let event = self.counters.record(snap);
        self.dopamine = next_level(
            self.dopamine,
            event,
            decimal,
            |a: f32, b: f32| a.max(b),
            |a: f32, b: f32| a * b,
            |a: f32, b: f32| a < b,
        );
        self.dopamine
    }

    fn boost_reward(&self, synthetic: f32) -> f32 {
        (synthetic + self.dopamine).clamp(0.0, decimal(REWARD_CEILING_PERMYRIAD))
    }
}

fn quiet() -> TripleSnapshot<f32> {
    TripleSnapshot::uniform(0.0)
}

#[test]
fn test_dopamine_decay() {
    let mut tracker = Tracker::new();
    let mut snap = quiet();
    snap.dynex_share_found = true;
    let d = tracker.update(&snap);
    assert!((d - DYNEX_SHARE_REWARD * DOPAMINE_DECAY).abs() < 0.01);
    snap.dynex_share_found = false;
    for _ in 0..50 {
        tracker.update(&snap);
    }
    assert!(tracker.dopamine < 0.001, "should decay, got {}", tracker.dopamine);
}

#[test]
fn test_qubic_overrides_dynex() {
    let mut tracker = Tracker::new();
    let mut snap = quiet();
    snap.dynex_share_found = true;
    tracker.update(&snap);
    snap.dynex_share_found = false;
    snap.qubic_solution_found = true;
    tracker.update(&snap);
    assert!(tracker.dopamine > 0.8, "Qubic should dominate");
}

#[test]
fn test_boost_reward_ceiling() {
    let mut tracker = Tracker::new();
    let mut snap = quiet();
    snap.qubic_solution_found = true;
    tracker.update(&snap);
    let boosted = tracker.boost_reward(0.9);
    assert!(boosted <= decimal(REWARD_CEILING_PERMYRIAD));
    assert!(boosted > 1.0);
}

#[test]
fn test_event_counters() {
    let mut counters = EventCounters::new();
    let mut snap = quiet();
    snap.dynex_share_found = true;
    counters.record(&snap);
    counters.record(&snap);
    assert_eq!(counters.dynex_shares, 2);
    snap.dynex_share_found = false;
    snap.quai_block_mined = true;
    counters.record(&snap);
    assert_eq!(counters.quai_blocks, 1);
}

#[test]
fn event_priority_counts_one_event_per_cycle() {
    let mut snap = quiet();
    assert_eq!(detect_event(&snap), None);
    snap.dynex_share_found = true;
    assert_eq!(detect_event(&snap), Some(RewardEvent::DynexShare));
    snap.quai_block_mined = true;
    assert_eq!(detect_event(&snap), Some(RewardEvent::QuaiBlock));
    snap.qubic_solution_found = true;
    assert_eq!(detect_event(&snap), Some(RewardEvent::QubicSolution));

    let mut counters = EventCounters::new();
    assert_eq!(counters.record(&snap), Some(RewardEvent::QubicSolution));
    assert_eq!(
        counters,
        EventCounters { dynex_shares: 0, quai_blocks: 0, qubic_solutions: 1 }
    );
    assert_eq!(counters.record(&quiet()), None);
    assert_eq!(counters.qubic_solutions, 1);
}

#[test]
fn reward_magnitudes_and_constants_are_the_documented_decimals() {
    assert_eq!(decimal(RewardEvent::QubicSolution.magnitude_permyriad()), 1.0_f32);
    assert_eq!(decimal(RewardEvent::QuaiBlock.magnitude_permyriad()), 0.8_f32);
    assert_eq!(decimal(RewardEvent::DynexShare.magnitude_permyriad()), 0.3_f32);
    assert!(RewardEvent::QubicSolution.replaces_level());
    assert!(!RewardEvent::QuaiBlock.replaces_level());
    assert!(!RewardEvent::DynexShare.replaces_level());
    assert_eq!(decimal(DOPAMINE_DECAY_PERMYRIAD), 0.8187_f32);
    assert_eq!(decimal(DOPAMINE_FLOOR_PERMYRIAD), 1e-4_f32);
    assert_eq!(decimal(DOPAMINE_CAP_PERMYRIAD), 1.0_f32);
    assert_eq!(decimal(REWARD_CEILING_PERMYRIAD), 1.5_f32);
    let exact = (-0.1_f64 / (DOPAMINE_TAU_MILLIS as f64 / 1000.0)).exp();
    assert!((decimal(DOPAMINE_DECAY_PERMYRIAD) as f64 - exact).abs() < 0.001);
}

#[test]
fn counters_refuse_to_overflow() {
    let mut snap = quiet();
    snap.quai_block_mined = true;
    let full = EventCounters { dynex_shares: 0, quai_blocks: u64::MAX, qubic_solutions: 0 };
    assert!(!full.can_record(&snap));
    snap.qubic_solution_found = true;
    assert!(full.can_record(&snap));
    assert!(full.can_record(&quiet()));
}

#[test]
fn next_level_sets_raises_decays_and_floors() {
    let max = |a: u64, b: u64| a.max(b);
    let scale = |a: u64, b: u64| a * b / 10_000;
    let less = |a: u64, b: u64| a < b;
    let decimal = |p: u32| p as u64;
    assert_eq!(next_level(9000, Some(RewardEvent::QubicSolution), decimal, max, scale, less), 8187);
    assert_eq!(next_level(9000, Some(RewardEvent::DynexShare), decimal, max, scale, less), 7368);
    assert_eq!(next_level(1000, Some(RewardEvent::QuaiBlock), decimal, max, scale, less), 6549);
    assert_eq!(next_level(1000, None, decimal, max, scale, less), 818);
    assert_eq!(next_level(1, None, decimal, max, scale, less), 0);
}
