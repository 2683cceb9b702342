//! What the adapter keeps.

use crate::types::Addr;
use vstd::prelude::*;

verus! {

/// The addresses and parameters that the adapter compiles against.
#[derive(Debug, Clone, PartialEq, Eq)]
pub struct Config {
    pub owner: Addr,
    pub chain_id: String,
    /// The connection that carries the interchain-account channel.
    pub ica_connection_id: String,
    /// Seconds after which a packet between controller and host account is void.
    pub timeout_default: u64,
}

/// Mathematical model of [`Config`].
pub ghost struct ConfigView {
    pub owner: Seq<char>,
    pub chain_id: Seq<char>,
    pub ica_connection_id: Seq<char>,
    pub timeout_default: u64,
}

impl DeepView for Config {
    type V = ConfigView;

    open spec fn deep_view(&self) -> ConfigView {
        ConfigView {
            owner: self.owner.deep_view(),
            chain_id: self.chain_id.deep_view(),
            ica_connection_id: self.ica_connection_id.deep_view(),
            timeout_default: self.timeout_default.deep_view(),
        }
    }
}

} // verus!
