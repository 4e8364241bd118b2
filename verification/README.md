# basilisk

Verified logic of a Basilisk parachain slice:

- `src/fixed_point.rs` — fixed-point numbers and per-million ratios held as raw
  integers; the arithmetic is done by `sp_arithmetic` behind specified wrappers.
- `src/liquidity_mining.rs` — farms (global pools), pools, rewards per share,
  loyalty multiplier, farm creation and pool-id numbering.
- `src/reward_laws.rs` — properties of the reward accounting across calls.
- `src/weights.rs` — EMA-oracle weights, built with `sp_weights`.
- `src/route_executor.rs` — the trade route used by the route-executor benchmark.
- `src/karura.rs` — asset/location conversions and the spot-price stub of the
  Karura test runtime.
- `app/` — glue that talks to a runtime (balances, transfers, origins, events,
  benchmark set-up) and SCALE encodings of the stored types.
