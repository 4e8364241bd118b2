//! Reward accounting of the liquidity-mining pallet, the weight formulas of
//! the EMA-oracle pallet, the trade-route planner of the route-executor
//! benchmarks and the asset/location conversions of the Karura test runtime.

pub mod fixed_point;
pub mod karura;
pub mod liquidity_mining;
pub mod operation_laws;
pub mod reward_laws;
pub mod route_executor;
pub mod weights;
