//! Adapter for transfers and delegation across the interchain-account bridge.

pub mod contract;
pub mod ica;
pub mod msg;
pub mod state;
