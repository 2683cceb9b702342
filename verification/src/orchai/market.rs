//! The lending market and the lender reward contract.

use crate::uint256::Uint256;
use vstd::prelude::*;

verus! {

/// Calls of the lending market.
#[derive(Debug, Clone, PartialEq, Eq)]
pub enum MarketExecuteMsg {
    BorrowStable {
        borrow_amount: Uint256,
        to: Option<String>,
    },
    ClaimRewards {
        to: Option<String>,
    },
    /// Returns stable coins for interest-bearing tokens, at the exchange rate.
    RedeemStable {},
    DepositStable {},
    RepayStable {},
    RepayStableFor {
        borrower: String,
    },
}

/// Mathematical model of [`MarketExecuteMsg`].
pub ghost enum MarketExecuteMsgView {
    BorrowStable { borrow_amount: Uint256, to: Option<Seq<char>> },
    ClaimRewards { to: Option<Seq<char>> },
    RedeemStable {},
    DepositStable {},
    RepayStable {},
    RepayStableFor { borrower: Seq<char> },
}

impl DeepView for MarketExecuteMsg {
    type V = MarketExecuteMsgView;

    open spec fn deep_view(&self) -> MarketExecuteMsgView {
        match self {
            MarketExecuteMsg::BorrowStable {
                borrow_amount,
                to,
            } => MarketExecuteMsgView::BorrowStable {
                borrow_amount: borrow_amount.deep_view(),
                to: to.deep_view(),
            },
            MarketExecuteMsg::ClaimRewards { to } => MarketExecuteMsgView::ClaimRewards {
                to: to.deep_view(),
            },
            MarketExecuteMsg::RedeemStable {} => MarketExecuteMsgView::RedeemStable {},
            MarketExecuteMsg::DepositStable {} => MarketExecuteMsgView::DepositStable {},
            MarketExecuteMsg::RepayStable {} => MarketExecuteMsgView::RepayStable {},
            MarketExecuteMsg::RepayStableFor { borrower } => MarketExecuteMsgView::RepayStableFor {
                borrower: borrower.deep_view(),
            },
        }
    }
}

/// Calls of the lender reward contract.
#[derive(Debug, Clone, PartialEq, Eq)]
pub enum AStableRewardExecuteMsg {
    ClaimRewards {
        recipient: Option<String>,
    },
}

/// Mathematical model of [`AStableRewardExecuteMsg`].
pub ghost enum AStableRewardExecuteMsgView {
    ClaimRewards { recipient: Option<Seq<char>> },
}

impl DeepView for AStableRewardExecuteMsg {
    type V = AStableRewardExecuteMsgView;

    open spec fn deep_view(&self) -> AStableRewardExecuteMsgView {
        match self {
            AStableRewardExecuteMsg::ClaimRewards {
                recipient,
            } => AStableRewardExecuteMsgView::ClaimRewards {
                recipient: recipient.deep_view(),
            },
        }
    }
}

} // verus!
