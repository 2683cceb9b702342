//! Adapter for the liquid staking hub.

pub mod contract;
pub mod msg;
pub mod orai_staking_operations;
pub mod state;
