//! What the adapter keeps.

use crate::types::Addr;
use vstd::prelude::*;

verus! {

/// The addresses and parameters that the adapter compiles against.
#[derive(Debug, Clone, PartialEq, Eq)]
pub struct Config {
    pub owner: Addr,
    pub strategy_contract: Addr,
}

/// Mathematical model of [`Config`].
pub ghost struct ConfigView {
    pub owner: Seq<char>,
    pub strategy_contract: Seq<char>,
}

impl DeepView for Config {
    type V = ConfigView;

    open spec fn deep_view(&self) -> ConfigView {
        ConfigView {
            owner: self.owner.deep_view(),
            strategy_contract: self.strategy_contract.deep_view(),
        }
    }
}

} // verus!
