//! Unified snapshot from all three blockchain nodes.
use vstd::prelude::*;

verus! {

/// Unified snapshot from Dynex, Qubic and Quai nodes, with samples of type `S`.
///
/// The interpolator bank smooths these to 10 Hz for the supervisor, and the
/// three "found" flags drive the consensus reward.
#[derive(Debug, Clone, Copy)]
pub struct TripleSnapshot<S> {
    // Dynex
    pub dynex_hashrate_mh: S,
    pub dynex_power_w: S,
    pub dynex_gpu_temp_c: S,
    /// True when a Dynex share was accepted this polling cycle.
    pub dynex_share_found: bool,
    // Qubic
    pub qubic_tick_number: u64,
    pub qubic_epoch: u32,
    pub qubic_tick_rate: S,
    pub qubic_epoch_progress: S,
    pub qu_price_usd: S,
    /// True when a Qubic computation solution was validated this cycle.
    pub qubic_solution_found: bool,
    // Quai
    pub quai_gas_price: S,
    pub quai_tx_count: u32,
    pub quai_block_utilization: S,
    pub quai_staking_ratio: S,
    /// True when a Quai block was mined this polling cycle.
    pub quai_block_mined: bool,
    // Neuraxon (optional neuromodulator telemetry)
    pub neuraxon_dopamine: S,
    pub neuraxon_serotonin: S,
    pub neuraxon_its: S,
}

impl<S: Copy> TripleSnapshot<S> {
    /// A snapshot with every sample equal to `sample`, every counter 0 and every
    /// flag false, so that missing data is benign (with `sample` the zero).
    pub fn uniform(sample: S) -> (snap: Self)
        ensures
            snap.dynex_hashrate_mh == sample,
            snap.dynex_power_w == sample,
            snap.dynex_gpu_temp_c == sample,
            !snap.dynex_share_found,
            snap.qubic_tick_number == 0,
            snap.qubic_epoch == 0,
            snap.qubic_tick_rate == sample,
            snap.qubic_epoch_progress == sample,
            snap.qu_price_usd == sample,
            !snap.qubic_solution_found,
            snap.quai_gas_price == sample,
            snap.quai_tx_count == 0,
            snap.quai_block_utilization == sample,
            snap.quai_staking_ratio == sample,
            !snap.quai_block_mined,
            snap.neuraxon_dopamine == sample,
            snap.neuraxon_serotonin == sample,
            snap.neuraxon_its == sample,
    {
        TripleSnapshot {
            dynex_hashrate_mh: sample,
            dynex_power_w: sample,
            dynex_gpu_temp_c: sample,
            dynex_share_found: false,
            qubic_tick_number: 0,
            qubic_epoch: 0,
            qubic_tick_rate: sample,
            qubic_epoch_progress: sample,
            qu_price_usd: sample,
            qubic_solution_found: false,
            quai_gas_price: sample,
            quai_tx_count: 0,
            quai_block_utilization: sample,
            quai_staking_ratio: sample,
            quai_block_mined: false,
            neuraxon_dopamine: sample,
            neuraxon_serotonin: sample,
            neuraxon_its: sample,
        }
    }
}

} // verus!
