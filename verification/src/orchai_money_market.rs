//! Adapter for the money market: lending, custody, liquidation bids and collateral.

pub mod contract;
pub mod custody_operations;
pub mod liquidation_operations;
pub mod market_operations;
pub mod msg;
pub mod overseer_operations;
pub mod state;
