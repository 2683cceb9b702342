//! Message shapes of the money market and of the liquid staking hub.

pub mod custody;
pub mod liquidation;
pub mod market;
pub mod orai_staking;
pub mod overseer;
pub mod querier;
pub mod tokens;
