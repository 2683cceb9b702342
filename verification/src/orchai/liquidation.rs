//! The liquidation queue.

use crate::types::Uint128;
use crate::uint256::Uint256;
use vstd::prelude::*;

verus! {

/// Calls of the liquidation queue.
#[derive(Debug, Clone, PartialEq, Eq)]
pub enum LiquidationExecuteMsg {
    /// Withdraws a bid.
    RetractBid {
        bid_idx: Uint128,
        amount: Option<Uint256>,
    },
    /// Activates bids whose waiting period is over.
    ActivateBids {
        collateral_token: String,
        bids_idx: Option<Vec<Uint128>>,
    },
    /// Claims the collateral that the bids have bought.
    ClaimLiquidations {
        collateral_token: String,
        bids_idx: Option<Vec<Uint128>>,
    },
    ClaimLendingRewards {
        collateral_token: String,
        bids_idx: Option<Vec<Uint128>>,
    },
    SubmitBid {
        collateral_token: String,
        premium_slot: u8,
    },
}

/// Mathematical model of [`LiquidationExecuteMsg`].
pub ghost enum LiquidationExecuteMsgView {
    RetractBid { bid_idx: Uint128, amount: Option<Uint256> },
    ActivateBids { collateral_token: Seq<char>, bids_idx: Option<Seq<Uint128>> },
    ClaimLiquidations { collateral_token: Seq<char>, bids_idx: Option<Seq<Uint128>> },
    ClaimLendingRewards { collateral_token: Seq<char>, bids_idx: Option<Seq<Uint128>> },
    SubmitBid { collateral_token: Seq<char>, premium_slot: u8 },
}

impl DeepView for LiquidationExecuteMsg {
    type V = LiquidationExecuteMsgView;

    open spec fn deep_view(&self) -> LiquidationExecuteMsgView {
        match self {
            LiquidationExecuteMsg::RetractBid {
                bid_idx,
                amount,
            } => LiquidationExecuteMsgView::RetractBid {
                bid_idx: bid_idx.deep_view(),
                amount: amount.deep_view(),
            },
            LiquidationExecuteMsg::ActivateBids {
                collateral_token,
                bids_idx,
            } => LiquidationExecuteMsgView::ActivateBids {
                collateral_token: collateral_token.deep_view(),
                bids_idx: bids_idx.deep_view(),
            },
            LiquidationExecuteMsg::ClaimLiquidations {
                collateral_token,
                bids_idx,
            } => LiquidationExecuteMsgView::ClaimLiquidations {
                collateral_token: collateral_token.deep_view(),
                bids_idx: bids_idx.deep_view(),
            },
            LiquidationExecuteMsg::ClaimLendingRewards {
                collateral_token,
                bids_idx,
            } => LiquidationExecuteMsgView::ClaimLendingRewards {
                collateral_token: collateral_token.deep_view(),
                bids_idx: bids_idx.deep_view(),
            },
            LiquidationExecuteMsg::SubmitBid {
                collateral_token,
                premium_slot,
            } => LiquidationExecuteMsgView::SubmitBid {
                collateral_token: collateral_token.deep_view(),
                premium_slot: premium_slot.deep_view(),
            },
        }
    }
}

} // verus!
