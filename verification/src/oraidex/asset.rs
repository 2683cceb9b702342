//! Assets and their identity.

use crate::types::{Addr, Uint128};
use vstd::prelude::*;

verus! {

/// The identity of an asset.
#[derive(Debug, PartialEq, Eq)]
pub enum AssetInfo {
    /// A token contract.
    Token {
        contract_addr: Addr,
    },
    /// A native denomination.
    NativeToken {
        denom: String,
    },
}

/// Mathematical model of [`AssetInfo`].
pub ghost enum AssetInfoView {
    Token { contract_addr: Seq<char> },
    NativeToken { denom: Seq<char> },
}

impl DeepView for AssetInfo {
    type V = AssetInfoView;

    open spec fn deep_view(&self) -> AssetInfoView {
        match self {
            AssetInfo::Token { contract_addr } => AssetInfoView::Token {
                contract_addr: contract_addr.deep_view(),
            },
            AssetInfo::NativeToken { denom } => AssetInfoView::NativeToken {
                denom: denom.deep_view(),
            },
        }
    }
}

impl Clone for AssetInfo {
    fn clone(&self) -> (r: Self)
        ensures
            r == *self,
    {
        match self {
            AssetInfo::Token { contract_addr } => AssetInfo::Token { contract_addr: contract_addr.clone() },
            AssetInfo::NativeToken { denom } => AssetInfo::NativeToken { denom: denom.clone() },
        }
    }
}

/// An amount of an asset.
#[derive(Debug, Clone, PartialEq, Eq)]
pub struct Asset {
    pub info: AssetInfo,
    pub amount: Uint128,
}

/// Mathematical model of [`Asset`].
pub ghost struct AssetView {
    pub info: AssetInfoView,
    pub amount: Uint128,
}

impl DeepView for Asset {
    type V = AssetView;

    open spec fn deep_view(&self) -> AssetView {
        AssetView {
            info: self.info.deep_view(),
            amount: self.amount.deep_view(),
        }
    }
}

impl AssetInfo {
    /// Whether two identities name the same asset.
    pub fn same(&self, other: &AssetInfo) -> (r: bool)
        ensures
            r == (self.deep_view() == other.deep_view()),
    {
        match self {
            AssetInfo::Token { contract_addr } => match other {
                AssetInfo::Token { contract_addr: other_addr } => *contract_addr == *other_addr,
                AssetInfo::NativeToken { .. } => false,
            },
            AssetInfo::NativeToken { denom } => match other {
                AssetInfo::Token { .. } => false,
                AssetInfo::NativeToken { denom: other_denom } => *denom == *other_denom,
            },
        }
    }
}

} // verus!
