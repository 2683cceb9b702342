//! What the adapter keeps.

use crate::types::Addr;
use vstd::prelude::*;

verus! {

/// The addresses and parameters that the adapter compiles against.
#[derive(Debug, Clone, PartialEq, Eq)]
pub struct Config {
    pub owner: Addr,
    pub orai_staking_hub: Addr,
    pub orai_staking_reward: Addr,
    pub orai_staking_denom: String,
}

/// Mathematical model of [`Config`].
pub ghost struct ConfigView {
    pub owner: Seq<char>,
    pub orai_staking_hub: Seq<char>,
    pub orai_staking_reward: Seq<char>,
    pub orai_staking_denom: Seq<char>,
}

impl DeepView for Config {
    type V = ConfigView;

    open spec fn deep_view(&self) -> ConfigView {
        ConfigView {
            owner: self.owner.deep_view(),
            orai_staking_hub: self.orai_staking_hub.deep_view(),
            orai_staking_reward: self.orai_staking_reward.deep_view(),
            orai_staking_denom: self.orai_staking_denom.deep_view(),
        }
    }
}

} // verus!
