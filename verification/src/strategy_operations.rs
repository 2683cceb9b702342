//! Adapter for the strategy registry.

pub mod contract;
pub mod msg;
pub mod state;
pub mod strategy;
