//! Adapter for plain token moves, wrapping and native staking.

pub mod chain;
pub mod contract;
pub mod msg;
pub mod state;
pub mod tokens;
pub mod wrapped;
