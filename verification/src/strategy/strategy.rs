//! The strategy registry.

use crate::types::Addr;
use vstd::prelude::*;

verus! {

/// Calls of the strategy registry.
#[derive(Debug, Clone, PartialEq, Eq)]
pub enum StrategyExecuteMsg {
    VerifyStrategy {
        creator: Addr,
        id: String,
    },
}

/// Mathematical model of [`StrategyExecuteMsg`].
pub ghost enum StrategyExecuteMsgView {
    VerifyStrategy { creator: Seq<char>, id: Seq<char> },
}

impl DeepView for StrategyExecuteMsg {
    type V = StrategyExecuteMsgView;

    open spec fn deep_view(&self) -> StrategyExecuteMsgView {
        match self {
            StrategyExecuteMsg::VerifyStrategy {
                creator,
                id,
            } => StrategyExecuteMsgView::VerifyStrategy {
                creator: creator.deep_view(),
                id: id.deep_view(),
            },
        }
    }
}

} // verus!
