//! Core of a liquidity client for a constant-product AMM pool: amount and
//! slippage arithmetic, token-account resolution, byte-exact instruction
//! encoding for the pool program, and transaction assembly. Network I/O,
//! key handling and the command line live outside this crate's proofs.

pub mod address;
pub mod amount;
pub mod commands;
pub mod config;
pub mod confirmation;
pub mod error;
pub mod instruction;
pub mod instructions;
pub mod pool;
pub mod submit;
pub mod token_account;
