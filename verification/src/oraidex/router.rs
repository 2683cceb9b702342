//! The swap router.

use crate::oraidex::asset::{AssetInfo, AssetInfoView};
use crate::types::{Addr, Uint128};
use vstd::prelude::*;

verus! {

/// One step of a swap route.
#[derive(Debug, Clone, PartialEq, Eq)]
pub enum SwapOperation {
    /// Swaps the offered asset for the asked one.
    OraiSwap {
        offer_asset_info: AssetInfo,
        ask_asset_info: AssetInfo,
    },
}

/// Mathematical model of [`SwapOperation`].
pub ghost enum SwapOperationView {
    OraiSwap { offer_asset_info: AssetInfoView, ask_asset_info: AssetInfoView },
}

impl DeepView for SwapOperation {
    type V = SwapOperationView;

    open spec fn deep_view(&self) -> SwapOperationView {
        match self {
            SwapOperation::OraiSwap {
                offer_asset_info,
                ask_asset_info,
            } => SwapOperationView::OraiSwap {
                offer_asset_info: offer_asset_info.deep_view(),
                ask_asset_info: ask_asset_info.deep_view(),
            },
        }
    }
}

/// Calls of the swap router.
#[derive(Debug, Clone, PartialEq, Eq)]
pub enum OraiswapExecuteMsg {
    /// Runs the steps of a route in order.
    ExecuteSwapOperations {
        operations: Vec<SwapOperation>,
        minimum_receive: Option<Uint128>,
        to: Option<Addr>,
    },
    WithdrawLiquidity {},
}

/// Mathematical model of [`OraiswapExecuteMsg`].
pub ghost enum OraiswapExecuteMsgView {
    ExecuteSwapOperations {
        operations: Seq<SwapOperationView>,
        minimum_receive: Option<Uint128>,
        to: Option<Seq<char>>,
    },
    WithdrawLiquidity {},
}

impl DeepView for OraiswapExecuteMsg {
    type V = OraiswapExecuteMsgView;

    open spec fn deep_view(&self) -> OraiswapExecuteMsgView {
        match self {
            OraiswapExecuteMsg::ExecuteSwapOperations {
                operations,
                minimum_receive,
                to,
            } => OraiswapExecuteMsgView::ExecuteSwapOperations {
                operations: operations.deep_view(),
                minimum_receive: minimum_receive.deep_view(),
                to: to.deep_view(),
            },
            OraiswapExecuteMsg::WithdrawLiquidity {} => OraiswapExecuteMsgView::WithdrawLiquidity {},
        }
    }
}

impl SwapOperation {
    /// The asset that the step hands out.
    pub fn get_target_asset_info(&self) -> (r: AssetInfo)
        ensures
            r.deep_view() == self.deep_view().target(),
    {
        match self {
            SwapOperation::OraiSwap { ask_asset_info, .. } => ask_asset_info.clone(),
        }
    }

    /// The asset that the step takes in.
    pub fn get_offer_asset_info(&self) -> (r: AssetInfo)
        ensures
            r.deep_view() == self.deep_view().offer(),
    {
        match self {
            SwapOperation::OraiSwap { offer_asset_info, .. } => offer_asset_info.clone(),
        }
    }
}

impl SwapOperationView {
    /// The asset that the step hands out.
    pub open spec fn target(self) -> AssetInfoView {
        match self {
            SwapOperationView::OraiSwap { ask_asset_info, .. } => ask_asset_info,
        }
    }

    /// The asset that the step takes in.
    pub open spec fn offer(self) -> AssetInfoView {
        match self {
            SwapOperationView::OraiSwap { offer_asset_info, .. } => offer_asset_info,
        }
    }
}

} // verus!
