//! The pair pool.

use crate::oraidex::asset::{Asset, AssetView};
use crate::types::{Addr, Decimal};
use vstd::prelude::*;

verus! {

/// Calls of a pair pool.
#[derive(Debug, Clone, PartialEq, Eq)]
pub enum PairExecuteMsg {
    ProvideLiquidity {
        assets: [Asset; 2],
        slippage_tolerance: Option<Decimal>,
        receiver: Option<Addr>,
    },
    WithdrawLiquidity {},
}

/// Mathematical model of [`PairExecuteMsg`].
pub ghost enum PairExecuteMsgView {
    ProvideLiquidity {
        assets: Seq<AssetView>,
        slippage_tolerance: Option<Decimal>,
        receiver: Option<Seq<char>>,
    },
    WithdrawLiquidity {},
}

impl DeepView for PairExecuteMsg {
    type V = PairExecuteMsgView;

    open spec fn deep_view(&self) -> PairExecuteMsgView {
        match self {
            PairExecuteMsg::ProvideLiquidity {
                assets,
                slippage_tolerance,
                receiver,
            } => PairExecuteMsgView::ProvideLiquidity {
                assets: assets.deep_view(),
                slippage_tolerance: slippage_tolerance.deep_view(),
                receiver: receiver.deep_view(),
            },
            PairExecuteMsg::WithdrawLiquidity {} => PairExecuteMsgView::WithdrawLiquidity {},
        }
    }
}

} // verus!
