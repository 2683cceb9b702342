//! The calls of the token standard.

use crate::payload::{ProtocolMsg, ProtocolMsgView};
use crate::types::Uint128;
use vstd::prelude::*;

verus! {

/// The token contract calls that the adapters emit.
#[derive(Debug, Clone, PartialEq, Eq)]
pub enum Cw20ExecuteMsg {
    /// Moves tokens of the caller to a recipient.
    Transfer {
        recipient: String,
        amount: Uint128,
    },
    /// Moves tokens of an owner to a recipient, on the caller's allowance.
    TransferFrom {
        owner: String,
        recipient: String,
        amount: Uint128,
    },
    /// Moves tokens of the caller to a contract and runs a payload there.
    Send {
        contract: String,
        amount: Uint128,
        msg: ProtocolMsg,
    },
    /// Moves tokens of an owner to a contract and runs a payload there.
    SendFrom {
        owner: String,
        contract: String,
        amount: Uint128,
        msg: ProtocolMsg,
    },
}

/// Mathematical model of [`Cw20ExecuteMsg`].
pub ghost enum Cw20ExecuteMsgView {
    Transfer { recipient: Seq<char>, amount: Uint128 },
    TransferFrom { owner: Seq<char>, recipient: Seq<char>, amount: Uint128 },
    Send { contract: Seq<char>, amount: Uint128, msg: ProtocolMsgView },
    SendFrom { owner: Seq<char>, contract: Seq<char>, amount: Uint128, msg: ProtocolMsgView },
}

impl DeepView for Cw20ExecuteMsg {
    type V = Cw20ExecuteMsgView;

    open spec fn deep_view(&self) -> Cw20ExecuteMsgView {
        match self {
            Cw20ExecuteMsg::Transfer { recipient, amount } => Cw20ExecuteMsgView::Transfer {
                recipient: recipient.deep_view(),
                amount: amount.deep_view(),
            },
            Cw20ExecuteMsg::TransferFrom {
                owner,
                recipient,
                amount,
            } => Cw20ExecuteMsgView::TransferFrom {
                owner: owner.deep_view(),
                recipient: recipient.deep_view(),
                amount: amount.deep_view(),
            },
            Cw20ExecuteMsg::Send { contract, amount, msg } => Cw20ExecuteMsgView::Send {
                contract: contract.deep_view(),
                amount: amount.deep_view(),
                msg: msg.deep_view(),
            },
            Cw20ExecuteMsg::SendFrom {
                owner,
                contract,
                amount,
                msg,
            } => Cw20ExecuteMsgView::SendFrom {
                owner: owner.deep_view(),
                contract: contract.deep_view(),
                amount: amount.deep_view(),
                msg: msg.deep_view(),
            },
        }
    }
}

} // verus!
