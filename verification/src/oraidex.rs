//! Message shapes of the swap router, the pair pools and the liquidity staking contract.

pub mod asset;
pub mod pair;
pub mod querier;
pub mod router;
pub mod staking;
