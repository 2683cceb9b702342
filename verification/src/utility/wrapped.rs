//! The wrapping contract.

use vstd::prelude::*;

verus! {

/// Calls of the wrapping contract.
#[derive(Debug, Clone, PartialEq, Eq)]
pub enum WrappedExecuteMsg {
    ConvertToCw20 {},
    ConvertToDenom {
        target_denom: String,
    },
}

/// Mathematical model of [`WrappedExecuteMsg`].
pub ghost enum WrappedExecuteMsgView {
    ConvertToCw20 {},
    ConvertToDenom { target_denom: Seq<char> },
}

impl DeepView for WrappedExecuteMsg {
    type V = WrappedExecuteMsgView;

    open spec fn deep_view(&self) -> WrappedExecuteMsgView {
        match self {
            WrappedExecuteMsg::ConvertToCw20 {} => WrappedExecuteMsgView::ConvertToCw20 {},
            WrappedExecuteMsg::ConvertToDenom {
                target_denom,
            } => WrappedExecuteMsgView::ConvertToDenom {
                target_denom: target_denom.deep_view(),
            },
        }
    }
}

} // verus!
