//! The liquid staking hub.

use vstd::prelude::*;

verus! {

/// The staked token that is withdrawn.
#[derive(Debug, Clone, Copy, PartialEq, Eq)]
pub enum UnBondType {
    SOrai,
    ScOrai,
}

impl DeepView for UnBondType {
    type V = UnBondType;

    open spec fn deep_view(&self) -> UnBondType {
        *self
    }
}

/// The staked token that is minted.
#[derive(Debug, Clone, Copy, PartialEq, Eq)]
pub enum BondType {
    SOrai,
    ScOrai,
}

impl DeepView for BondType {
    type V = BondType;

    open spec fn deep_view(&self) -> BondType {
        *self
    }
}

/// The direction of a conversion between staked tokens.
#[derive(Debug, Clone, Copy, PartialEq, Eq)]
pub enum ConvertType {
    ScOraiToSOrai,
    SOraiToScOrai,
}

impl DeepView for ConvertType {
    type V = ConvertType;

    open spec fn deep_view(&self) -> ConvertType {
        *self
    }
}

/// Calls of the liquid staking hub and of its reward contract.
#[derive(Debug, Clone, PartialEq, Eq)]
pub enum OraiStakingExecuteMsg {
    Bond {
        bond_type: BondType,
    },
    WithdrawUnbonded {
        unbond_type: UnBondType,
    },
    Unbond {},
    /// Pays the accrued reward out.
    ClaimRewards {
        recipient: Option<String>,
    },
    Convert {},
}

/// Mathematical model of [`OraiStakingExecuteMsg`].
pub ghost enum OraiStakingExecuteMsgView {
    Bond { bond_type: BondType },
    WithdrawUnbonded { unbond_type: UnBondType },
    Unbond {},
    ClaimRewards { recipient: Option<Seq<char>> },
    Convert {},
}

impl DeepView for OraiStakingExecuteMsg {
    type V = OraiStakingExecuteMsgView;

    open spec fn deep_view(&self) -> OraiStakingExecuteMsgView {
        match self {
            OraiStakingExecuteMsg::Bond { bond_type } => OraiStakingExecuteMsgView::Bond {
                bond_type: bond_type.deep_view(),
            },
            OraiStakingExecuteMsg::WithdrawUnbonded {
                unbond_type,
            } => OraiStakingExecuteMsgView::WithdrawUnbonded {
                unbond_type: unbond_type.deep_view(),
            },
            OraiStakingExecuteMsg::Unbond {} => OraiStakingExecuteMsgView::Unbond {},
            OraiStakingExecuteMsg::ClaimRewards {
                recipient,
            } => OraiStakingExecuteMsgView::ClaimRewards {
                recipient: recipient.deep_view(),
            },
            OraiStakingExecuteMsg::Convert {} => OraiStakingExecuteMsgView::Convert {},
        }
    }
}

} // verus!
