//! Adapter for swaps, liquidity provision and liquidity staking.

pub mod contract;
pub mod msg;
pub mod state;
