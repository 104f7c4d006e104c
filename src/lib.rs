//! A two-leg arbitrage engine for a base/quote pair quoted by two liquidity
//! pools: pool-state parsing, optimal trade sizing, swap-instruction encoding,
//! and the decision procedure that drives both legs and settles the vault.

pub mod error;
pub mod pool_state;
pub mod optimal_amount;
pub mod saros_cpi;
pub mod vault;
pub mod engine;
