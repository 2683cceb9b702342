//! The liquidity staking contract.

use crate::oraidex::asset::{Asset, AssetInfo, AssetInfoView, AssetView};
use crate::types::{Addr, Uint128};
use vstd::prelude::*;

verus! {

/// Calls of the liquidity staking contract.
#[allow(inconsistent_fields)]
#[derive(Debug, Clone, PartialEq, Eq)]
pub enum StakingExecuteMsg {
    Bond {
        asset_info: AssetInfo,
    },
    Unbond {
        asset_info: AssetInfo,
        amount: Uint128,
    },
    /// Withdraws pending rewards: of one pool, or of all where none is named.
    Withdraw {
        asset_info: Option<AssetInfo>,
    },
}

/// Mathematical model of [`StakingExecuteMsg`].
#[allow(inconsistent_fields)]
pub ghost enum StakingExecuteMsgView {
    Bond { asset_info: AssetInfoView },
    Unbond { asset_info: AssetInfoView, amount: Uint128 },
    Withdraw { asset_info: Option<AssetInfoView> },
}

impl DeepView for StakingExecuteMsg {
    type V = StakingExecuteMsgView;

    open spec fn deep_view(&self) -> StakingExecuteMsgView {
        match self {
            StakingExecuteMsg::Bond { asset_info } => StakingExecuteMsgView::Bond {
                asset_info: asset_info.deep_view(),
            },
            StakingExecuteMsg::Unbond { asset_info, amount } => StakingExecuteMsgView::Unbond {
                asset_info: asset_info.deep_view(),
                amount: amount.deep_view(),
            },
            StakingExecuteMsg::Withdraw { asset_info } => StakingExecuteMsgView::Withdraw {
                asset_info: asset_info.deep_view(),
            },
        }
    }
}

/// Questions to the liquidity staking contract.
#[derive(Debug, Clone, PartialEq, Eq)]
pub enum StakingQueryMsg {
    RewardInfo {
        staker_addr: Addr,
        asset_info: Option<AssetInfo>,
    },
}

/// Mathematical model of [`StakingQueryMsg`].
pub ghost enum StakingQueryMsgView {
    RewardInfo { staker_addr: Seq<char>, asset_info: Option<AssetInfoView> },
}

impl DeepView for StakingQueryMsg {
    type V = StakingQueryMsgView;

    open spec fn deep_view(&self) -> StakingQueryMsgView {
        match self {
            StakingQueryMsg::RewardInfo {
                staker_addr,
                asset_info,
            } => StakingQueryMsgView::RewardInfo {
                staker_addr: staker_addr.deep_view(),
                asset_info: asset_info.deep_view(),
            },
        }
    }
}

/// The position of a staker in one pool.
#[derive(Debug, Clone, PartialEq, Eq)]
pub struct RewardInfoResponseItem {
    pub asset_info: AssetInfo,
    pub bond_amount: Uint128,
    pub pending_reward: Uint128,
    pub pending_withdraw: Vec<Asset>,
    /// Whether the position has to be closed to keep earning with the new pool token.
    pub should_migrate: Option<bool>,
}

/// Mathematical model of [`RewardInfoResponseItem`].
pub ghost struct RewardInfoResponseItemView {
    pub asset_info: AssetInfoView,
    pub bond_amount: Uint128,
    pub pending_reward: Uint128,
    pub pending_withdraw: Seq<AssetView>,
    pub should_migrate: Option<bool>,
}

impl DeepView for RewardInfoResponseItem {
    type V = RewardInfoResponseItemView;

    open spec fn deep_view(&self) -> RewardInfoResponseItemView {
        RewardInfoResponseItemView {
            asset_info: self.asset_info.deep_view(),
            bond_amount: self.bond_amount.deep_view(),
            pending_reward: self.pending_reward.deep_view(),
            pending_withdraw: self.pending_withdraw.deep_view(),
            should_migrate: self.should_migrate.deep_view(),
        }
    }
}

/// The positions of a staker.
#[derive(Debug, Clone, PartialEq, Eq)]
pub struct RewardInfoResponse {
    pub staker_addr: Addr,
    pub reward_infos: Vec<RewardInfoResponseItem>,
}

/// Mathematical model of [`RewardInfoResponse`].
pub ghost struct RewardInfoResponseView {
    pub staker_addr: Seq<char>,
    pub reward_infos: Seq<RewardInfoResponseItemView>,
}

impl DeepView for RewardInfoResponse {
    type V = RewardInfoResponseView;

    open spec fn deep_view(&self) -> RewardInfoResponseView {
        RewardInfoResponseView {
            staker_addr: self.staker_addr.deep_view(),
            reward_infos: self.reward_infos.deep_view(),
        }
    }
}

} // verus!
