//! Plain token moves.

use crate::composer::{single, token_call, token_call_view};
use crate::cw20::{Cw20ExecuteMsg, Cw20ExecuteMsgView};
use crate::gateway::{StateQueryView, Step, StepView};
use crate::payload::{ProtocolMsg, ProtocolMsgView};
use crate::resolver::{Quantity, QuantityView, quantity, quantity_view};
use crate::types::{Addr, Binary, StdErrorView, StdResult, Uint128, result_view};
use crate::utility::querier::query_token_balance;
use vstd::prelude::*;

verus! {

/// Model of [`query_token_transfer_msg`].
pub open spec fn token_transfer_view(
    token: Seq<char>,
    sender: Option<Seq<char>>,
    recipient: Seq<char>,
    amount: Option<u128>,
) -> Result<StepView, StdErrorView> {
    match quantity_view(sender, amount) {
        Ok(QuantityView::Given(amount)) => Ok(
            StepView::Emit(
                seq![token_call_view(token, Cw20ExecuteMsgView::Transfer { recipient, amount })],
            ),
        ),
        Ok(QuantityView::AllOf(sender)) => Ok(
            StepView::Ask(StateQueryView::TokenBalance { token, account: sender }),
        ),
        Err(e) => Err(e),
    }
}

/// Transfers tokens of the caller to `recipient`: one call of the token. Without an amount the
/// sender's whole balance is meant, and the question for it comes back; without amount and
/// sender the operation is refused.
pub fn query_token_transfer_msg(
    token: Addr,
    sender: Option<Addr>,
    recipient: Addr,
    amount: Option<Uint128>,
) -> (r: StdResult<Step>)
    ensures
        result_view(r) == token_transfer_view(token@, sender.deep_view(), recipient@, amount),
{
    match quantity(sender, amount)? {
        Quantity::Given(amount) => Ok(
            Step::Emit(single(token_call(token, Cw20ExecuteMsg::Transfer { recipient, amount }))),
        ),
        Quantity::AllOf(sender) => Ok(Step::Ask(query_token_balance(token, sender))),
    }
}

/// Model of [`query_token_transfer_from_msg`].
pub open spec fn token_transfer_from_view(
    token: Seq<char>,
    owner: Seq<char>,
    recipient: Seq<char>,
    amount: Option<u128>,
) -> StepView {
    match amount {
        Some(amount) => StepView::Emit(
            seq![token_call_view(token, Cw20ExecuteMsgView::TransferFrom { owner, recipient, amount })],
        ),
        None => StepView::Ask(StateQueryView::TokenBalance { token, account: owner }),
    }
}

/// Transfers tokens of `owner` to `recipient`: one call of the token. Without an amount the
/// owner's whole balance is meant, and the question for it comes back.
pub fn query_token_transfer_from_msg(
    token: Addr,
    owner: Addr,
    recipient: Addr,
    amount: Option<Uint128>,
) -> (r: StdResult<Step>)
    ensures
        result_view(r) == Ok::<StepView, StdErrorView>(
            token_transfer_from_view(token@, owner@, recipient@, amount),
        ),
{
    match amount {
        Some(amount) => Ok(
            Step::Emit(
                single(
                    token_call(token, Cw20ExecuteMsg::TransferFrom { owner, recipient, amount }),
                ),
            ),
        ),
        None => Ok(Step::Ask(query_token_balance(token, owner))),
    }
}

/// Model of [`query_token_send_msg`].
pub open spec fn token_send_raw_view(
    token: Seq<char>,
    sender: Option<Seq<char>>,
    contract: Seq<char>,
    amount: Option<u128>,
    msg: Seq<u8>,
) -> Result<StepView, StdErrorView> {
    match quantity_view(sender, amount) {
        Ok(QuantityView::Given(amount)) => Ok(
            StepView::Emit(
                seq![
                    token_call_view(
                        token,
                        Cw20ExecuteMsgView::Send { contract, amount, msg: ProtocolMsgView::Raw(msg) },
                    ),
                ],
            ),
        ),
        Ok(QuantityView::AllOf(sender)) => Ok(
            StepView::Ask(StateQueryView::TokenBalance { token, account: sender }),
        ),
        Err(e) => Err(e),
    }
}

/// Sends tokens of the caller to `contract` with the payload `msg`: one call of the token.
/// Without an amount the sender's whole balance is meant, and the question for it comes back;
/// without amount and sender the operation is refused.
pub fn query_token_send_msg(
    token: Addr,
    sender: Option<Addr>,
    contract: Addr,
    amount: Option<Uint128>,
    msg: Binary,
) -> (r: StdResult<Step>)
    ensures
        result_view(r) == token_send_raw_view(
            token@,
            sender.deep_view(),
            contract@,
            amount,
            msg.deep_view(),
        ),
{
    match quantity(sender, amount)? {
        Quantity::Given(amount) => Ok(
            Step::Emit(
                single(
                    token_call(
                        token,
                        Cw20ExecuteMsg::Send { contract, amount, msg: ProtocolMsg::Raw(msg) },
                    ),
                ),
            ),
        ),
        Quantity::AllOf(sender) => Ok(Step::Ask(query_token_balance(token, sender))),
    }
}

/// Model of [`query_token_send_from_msg`].
pub open spec fn token_send_from_view(
    token: Seq<char>,
    owner: Seq<char>,
    contract: Seq<char>,
    amount: Option<u128>,
    msg: Seq<u8>,
) -> StepView {
    match amount {
        Some(amount) => StepView::Emit(
            seq![
                token_call_view(
                    token,
                    Cw20ExecuteMsgView::SendFrom {
                        owner,
                        contract,
                        amount,
                        msg: ProtocolMsgView::Raw(msg),
                    },
                ),
            ],
        ),
        None => StepView::Ask(StateQueryView::TokenBalance { token, account: owner }),
    }
}

/// Sends tokens of `owner` to `contract` with the payload `msg`: one call of the token.
/// Without an amount the owner's whole balance is meant, and the question for it comes back.
pub fn query_token_send_from_msg(
    token: Addr,
    owner: Addr,
    contract: Addr,
    amount: Option<Uint128>,
    msg: Binary,
) -> (r: StdResult<Step>)
    ensures
        result_view(r) == Ok::<StepView, StdErrorView>(
            token_send_from_view(token@, owner@, contract@, amount, msg.deep_view()),
        ),
{
    match amount {
        Some(amount) => Ok(
            Step::Emit(
                single(
                    token_call(
                        token,
                        Cw20ExecuteMsg::SendFrom {
                            owner,
                            contract,
                            amount,
                            msg: ProtocolMsg::Raw(msg),
                        },
                    ),
                ),
            ),
        ),
        None => Ok(Step::Ask(query_token_balance(token, owner))),
    }
}

} // verus!
