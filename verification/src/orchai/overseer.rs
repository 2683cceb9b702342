//! The overseer.

use crate::orchai::tokens::TokensHuman;
use crate::uint256::Uint256;
use vstd::prelude::*;

verus! {

/// Calls of the overseer.
#[derive(Debug, Clone, PartialEq, Eq)]
pub enum OverseerExecuteMsg {
    LockCollateral {
        collaterals: TokensHuman,
    },
    UnlockCollateral {
        collaterals: TokensHuman,
    },
}

/// Mathematical model of [`OverseerExecuteMsg`].
pub ghost enum OverseerExecuteMsgView {
    LockCollateral { collaterals: Seq<(Seq<char>, Uint256)> },
    UnlockCollateral { collaterals: Seq<(Seq<char>, Uint256)> },
}

impl DeepView for OverseerExecuteMsg {
    type V = OverseerExecuteMsgView;

    open spec fn deep_view(&self) -> OverseerExecuteMsgView {
        match self {
            OverseerExecuteMsg::LockCollateral {
                collaterals,
            } => OverseerExecuteMsgView::LockCollateral {
                collaterals: collaterals.deep_view(),
            },
            OverseerExecuteMsg::UnlockCollateral {
                collaterals,
            } => OverseerExecuteMsgView::UnlockCollateral {
                collaterals: collaterals.deep_view(),
            },
        }
    }
}

} // verus!
