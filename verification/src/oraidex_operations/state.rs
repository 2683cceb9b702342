//! What the adapter keeps.

use crate::types::Addr;
use vstd::prelude::*;

verus! {

/// The addresses and parameters that the adapter compiles against.
#[derive(Debug, Clone, PartialEq, Eq)]
pub struct Config {
    pub owner: Addr,
    pub oraiswap_router: Addr,
    pub oraiswap_staking: Addr,
}

/// Mathematical model of [`Config`].
pub ghost struct ConfigView {
    pub owner: Seq<char>,
    pub oraiswap_router: Seq<char>,
    pub oraiswap_staking: Seq<char>,
}

impl DeepView for Config {
    type V = ConfigView;

    open spec fn deep_view(&self) -> ConfigView {
        ConfigView {
            owner: self.owner.deep_view(),
            oraiswap_router: self.oraiswap_router.deep_view(),
            oraiswap_staking: self.oraiswap_staking.deep_view(),
        }
    }
}

} // verus!
