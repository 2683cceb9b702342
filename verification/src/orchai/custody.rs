//! The custody contracts.

use crate::types::{StdError, StdErrorView, StdResult, Uint128, result_amount};
use crate::uint256::Uint256;
use vstd::prelude::*;

verus! {

/// Calls of a custody contract.
#[derive(Debug, Clone, PartialEq, Eq)]
pub enum CustodyExecuteMsg {
    /// Deposits the collateral token.
    DepositCollateral {},
    /// Withdraws spendable collateral: all of it where no amount is given.
    WithdrawCollateral {
        amount: Option<Uint256>,
    },
    /// Pays the accrued reward out.
    ClaimRewards {
        recipient: Option<String>,
    },
}

/// Mathematical model of [`CustodyExecuteMsg`].
pub ghost enum CustodyExecuteMsgView {
    DepositCollateral {},
    WithdrawCollateral { amount: Option<Uint256> },
    ClaimRewards { recipient: Option<Seq<char>> },
}

impl DeepView for CustodyExecuteMsg {
    type V = CustodyExecuteMsgView;

    open spec fn deep_view(&self) -> CustodyExecuteMsgView {
        match self {
            CustodyExecuteMsg::DepositCollateral {} => CustodyExecuteMsgView::DepositCollateral {},
            CustodyExecuteMsg::WithdrawCollateral {
                amount,
            } => CustodyExecuteMsgView::WithdrawCollateral {
                amount: amount.deep_view(),
            },
            CustodyExecuteMsg::ClaimRewards { recipient } => CustodyExecuteMsgView::ClaimRewards {
                recipient: recipient.deep_view(),
            },
        }
    }
}

/// Questions to a custody contract.
#[derive(Debug, Clone, PartialEq, Eq)]
pub enum CustodyQueryMsg {
    Borrower {
        address: String,
    },
}

/// Mathematical model of [`CustodyQueryMsg`].
pub ghost enum CustodyQueryMsgView {
    Borrower { address: Seq<char> },
}

impl DeepView for CustodyQueryMsg {
    type V = CustodyQueryMsgView;

    open spec fn deep_view(&self) -> CustodyQueryMsgView {
        match self {
            CustodyQueryMsg::Borrower { address } => CustodyQueryMsgView::Borrower {
                address: address.deep_view(),
            },
        }
    }
}

/// The collateral position of a borrower.
#[derive(Debug, Clone, PartialEq, Eq)]
pub struct BorrowerResponse {
    pub borrower: String,
    pub balance: Uint256,
    pub spendable: Uint256,
}

/// Mathematical model of [`BorrowerResponse`].
pub ghost struct BorrowerResponseView {
    pub borrower: Seq<char>,
    pub balance: Uint256,
    pub spendable: Uint256,
}

impl DeepView for BorrowerResponse {
    type V = BorrowerResponseView;

    open spec fn deep_view(&self) -> BorrowerResponseView {
        BorrowerResponseView {
            borrower: self.borrower.deep_view(),
            balance: self.balance.deep_view(),
            spendable: self.spendable.deep_view(),
        }
    }
}

/// Model of [`BorrowerResponse::locked`].
pub open spec fn locked_view(balance: Uint256, spendable: Uint256) -> Result<u128, StdErrorView> {
    if spendable.value() <= balance.value() && balance.value() - spendable.value() <= u128::MAX {
        Ok((balance.value() - spendable.value()) as u128)
    } else {
        Err(StdErrorView::Overflow {  })
    }
}

impl BorrowerResponse {
    /// The collateral that is deposited but locked: the balance less what is spendable. Fails
    /// where the position is not sound (more spendable than deposited) or the difference leaves
    /// 128 bits.
    pub fn locked(&self) -> (r: StdResult<Uint128>)
        ensures
            result_amount(r) == locked_view(self.balance, self.spendable),
    {
        match self.balance.checked_sub(&self.spendable) {
            Some(difference) => match difference.to_u128() {
                Some(amount) => Ok(amount),
                None => Err(StdError::Overflow {  }),
            },
            None => Err(StdError::Overflow {  }),
        }
    }
}

} // verus!
