# spikenaut-ingest

Multi-chain blockchain ingest with state-space interpolation for spiking
supervisors that step at 10 Hz, written in Verus.

- `src/` — the verified library, generic in the sample type:
  - `interpolator.rs`: signal classes and their smoothing factors (exact
    decimals, proved to lie within 1e-3 of every number between the third-
    and fourth-order Taylor polynomials of `exp(−Δt/τ)`; that these two
    polynomials bracket `exp(−x)` for `x ≥ 0` is the standard alternating-series
    bound, which Verus does not check), the single-channel
    interpolator (snap on first observation, hold, blend, reset) and the
    12-channel bank with its channel layout.
  - `consensus_reward.rs`: consensus events, their priority and magnitudes,
    the event counters, and the order of one dopamine step (set or raise,
    decay, floor) over caller-supplied sample arithmetic.
  - `snapshot.rs`: the unified Dynex/Qubic/Quai snapshot.
- `app/` — the `f32` front end: the float blend, clamping and dopamine level,
  and the snapshot with its serde derives.
- `tests/` — tests of the library on `f32` and integer samples.
