//! Byte-exact encoders for the two pool operations.

pub mod add_liquidity;
pub mod remove_liquidity;
