//! The two liquidity operations, planned as pure functions over pool
//! snapshots and chain facts.

pub mod add_liquidity;
pub mod remove_liquidity;
