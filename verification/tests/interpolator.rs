use spikenaut_ingest::interpolator::{
    class_of_channel, reading_of_channel, Reading, ITS_FULL_SCALE, NUM_BRIDGE_CHANNELS,
};
use spikenaut_ingest::{ChannelInterpolator, InterpolatorBank, SignalClass, TripleSnapshot, PERMYRIAD};

fn alpha(class: SignalClass) -> f32 {
    class.alpha_permyriad() as f32 / PERMYRIAD as f32
}

fn blend(a: f32, x: f32, u: f32) -> f32 {
    a * x + (1.0 - a) * u
}

fn condition(r: Reading<f32>) -> f32 {
    match r {
        Reading::Raw(v) => v,
        Reading::Count(n) => n as f32,
        Reading::UnitFraction(v) => v.clamp(0.0, 1.0),
        Reading::ScaledFraction(v, d) => (v / d as f32).clamp(0.0, 1.0),
    }
}

fn channel(class: SignalClass) -> ChannelInterpolator<f32> {
    ChannelInterpolator::new(alpha(class))
}

#[test]
fn test_snap_on_first_observe() {
    let mut ch = channel(SignalClass::Hardware);
    assert_eq!(ch.step(&blend).unwrap_or(0.0), 0.0);
    ch.observe(100.0);
    assert_eq!(ch.value().unwrap_or(0.0), 100.0);
}

#[test]
fn test_convergence() {
    let mut ch = channel(SignalClass::Hardware);
    ch.observe(0.0);
    ch.observe(1.0);
    for _ in 0..30 {
        ch.step(&blend);
    }
    let v = ch.value().unwrap_or(0.0);
    assert!((v - 1.0).abs() < 0.01, "got {}", v);
}

#[test]
fn test_monotone_no_overshoot() {
    let mut ch = channel(SignalClass::Blockchain);
    ch.observe(0.0);
    ch.observe(1.0);
    let mut prev = 0.0;
    for _ in 0..50 {
        let v = ch.step(&blend).unwrap_or(0.0);
        assert!(v >= prev);
        assert!(v <= 1.0 + 1e-6);
        prev = v;
    }
}

#[test]
fn test_slow_chain_lags_at_1s() {
    let mut ch = channel(SignalClass::SlowChain);
    ch.observe(0.0);
    ch.observe(1.0);
    for _ in 0..10 {
        ch.step(&blend);
    }
    let v = ch.value().unwrap_or(0.0);
    assert!(v < 0.5, "SlowChain lag at 1s: got {}", v);
}

#[test]
fn test_alpha_values() {
    let hw = (-0.1_f64 / 0.3).exp() as f32;
    assert!((alpha(SignalClass::Hardware) - hw).abs() < 0.001);
    let bc = (-0.1_f64 / 1.0).exp() as f32;
    assert!((alpha(SignalClass::Blockchain) - bc).abs() < 0.001);
    let sc = (-0.1_f64 / 3.0).exp() as f32;
    assert!((alpha(SignalClass::SlowChain) - sc).abs() < 0.001);
}

#[test]
fn test_reset() {
    let mut ch = channel(SignalClass::Hardware);
    ch.observe(50.0);
    ch.step(&blend);
    ch.reset();
    assert_eq!(ch.step(&blend).unwrap_or(0.0), 0.0);
    assert!(!ch.is_initialized());
}

#[test]
fn alpha_decimals_are_the_documented_floats() {
    assert_eq!(alpha(SignalClass::Hardware), 0.7165_f32);
    assert_eq!(alpha(SignalClass::Blockchain), 0.9048_f32);
    assert_eq!(alpha(SignalClass::SlowChain), 0.9672_f32);
    assert_eq!(SignalClass::Hardware.tau_millis(), 300);
    assert_eq!(SignalClass::Blockchain.tau_millis(), 1000);
    assert_eq!(SignalClass::SlowChain.tau_millis(), 3000);
    assert_eq!(SignalClass::Hardware.tau_millis() as f32 / 1000.0, 0.3_f32);
}

#[test]
fn slower_class_smooths_harder() {
    let classes = [SignalClass::Hardware, SignalClass::Blockchain, SignalClass::SlowChain];
    for a in classes {
        assert!(0 < a.alpha_permyriad() && a.alpha_permyriad() < PERMYRIAD);
        for b in classes {
            if a.tau_millis() < b.tau_millis() {
                assert!(a.alpha_permyriad() < b.alpha_permyriad());
            }
        }
    }
}

#[test]
fn observation_after_snap_holds_level() {
    let mut ch = channel(SignalClass::Hardware);
    ch.observe(10.0);
    ch.observe(20.0);
    assert_eq!(ch.value(), Some(10.0));
    assert_eq!(ch.step(&blend), Some(0.7165_f32 * 10.0 + (1.0 - 0.7165_f32) * 20.0));
}

#[test]
fn step_hands_alpha_level_and_observation_to_the_blend() {
    let mut ch = ChannelInterpolator::new(7u32);
    ch.observe(3);
    ch.observe(5);
    let r = ch.step(&|a: u32, x: u32, u: u32| a * 100 + x * 10 + u);
    assert_eq!(r, Some(735));
    assert_eq!(ch.value(), Some(735));
    let r = ch.step(&|a: u32, _x: u32, u: u32| a + u);
    assert_eq!(r, Some(12));
}

#[test]
fn reset_then_observe_snaps_again() {
    let mut ch = channel(SignalClass::Blockchain);
    ch.observe(1.0);
    ch.step(&blend);
    ch.reset();
    assert_eq!(ch.value(), None);
    ch.observe(42.0);
    assert!(ch.is_initialized());
    assert_eq!(ch.value(), Some(42.0));
}

#[test]
fn bank_layout_matches_the_channel_table() {
    let (h, b, s) = (SignalClass::Hardware, SignalClass::Blockchain, SignalClass::SlowChain);
    let expected = [h, h, h, b, s, b, s, s, s, b, b, b];
    for i in 0..NUM_BRIDGE_CHANNELS {
        assert_eq!(class_of_channel(i), expected[i], "channel {}", i);
    }
}

fn sample_snapshot() -> TripleSnapshot<f32> {
    let mut snap = TripleSnapshot::uniform(0.0_f32);
    snap.dynex_hashrate_mh = 100.0;
    snap.dynex_power_w = 250.0;
    snap.dynex_gpu_temp_c = 65.0;
    snap.qubic_tick_rate = 0.3;
    snap.qubic_epoch_progress = 0.5;
    snap.qu_price_usd = 2.5;
    snap.quai_gas_price = 25.0;
    snap.quai_tx_count = 17;
    snap.quai_block_utilization = 0.75;
    snap.neuraxon_dopamine = 1.7;
    snap.neuraxon_serotonin = -0.2;
    snap.neuraxon_its = 500.0;
    snap
}

#[test]
fn bank_readings_follow_the_snapshot_fields() {
    let snap = sample_snapshot();
    assert_eq!(reading_of_channel(&snap, 0), Reading::Raw(100.0));
    assert_eq!(reading_of_channel(&snap, 2), Reading::Raw(65.0));
    assert_eq!(reading_of_channel(&snap, 7), Reading::Count(17));
    assert_eq!(reading_of_channel(&snap, 9), Reading::UnitFraction(1.7));
    assert_eq!(reading_of_channel(&snap, 10), Reading::UnitFraction(-0.2));
    assert_eq!(reading_of_channel(&snap, 11), Reading::ScaledFraction(500.0, 2000));
    assert_eq!(ITS_FULL_SCALE, 2000);
}

#[test]
fn bank_observe_snaps_every_channel() {
    let mut bank = InterpolatorBank::new(alpha);
    assert_eq!(bank.values(), [None; NUM_BRIDGE_CHANNELS]);
    assert_eq!(bank.step(blend), [None; NUM_BRIDGE_CHANNELS]);
    bank.observe(&sample_snapshot(), condition);
    let v = bank.values();
    let expected = [100.0, 250.0, 65.0, 0.3, 0.5, 2.5, 25.0, 17.0, 0.75, 1.0, 0.0, 0.25];
    for i in 0..NUM_BRIDGE_CHANNELS {
        assert_eq!(v[i], Some(expected[i]), "channel {}", i);
    }
    let stepped = bank.step(blend);
    for i in 0..NUM_BRIDGE_CHANNELS {
        assert_eq!(stepped[i], Some(expected[i]), "steady channel {}", i);
    }
    bank.reset();
    assert_eq!(bank.values(), [None; NUM_BRIDGE_CHANNELS]);
}

#[test]
fn bank_channels_smooth_with_their_class() {
    let mut bank = InterpolatorBank::new(alpha);
    bank.observe(&TripleSnapshot::uniform(0.0_f32), condition);
    let mut snap = TripleSnapshot::uniform(1.0_f32);
    snap.quai_tx_count = 1;
    snap.neuraxon_its = 2000.0;
    bank.observe(&snap, condition);
    let out = bank.step(blend);
    for i in 0..NUM_BRIDGE_CHANNELS {
        let a = alpha(class_of_channel(i));
        assert_eq!(out[i], Some(blend(a, 0.0, 1.0)), "channel {}", i);
    }
}

#[test]
fn bank_ignores_fields_it_does_not_read() {
    let mut b1 = InterpolatorBank::new(alpha);
    let mut b2 = InterpolatorBank::new(alpha);
    let s1 = sample_snapshot();
    let mut s2 = sample_snapshot();
    s2.dynex_share_found = true;
    s2.qubic_tick_number = 99;
    s2.qubic_epoch = 7;
    s2.qubic_solution_found = true;
    s2.quai_staking_ratio = 0.4;
    s2.quai_block_mined = true;
    b1.observe(&s1, condition);
    b2.observe(&s2, condition);
    assert_eq!(b1.values(), b2.values());
    assert_eq!(b1.step(blend), b2.step(blend));
}
