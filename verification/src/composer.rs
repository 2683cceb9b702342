//! Message composer: the building blocks of every message list.

use crate::cw20::{Cw20ExecuteMsg, Cw20ExecuteMsgView};
use crate::payload::{ExecutePayload, ExecutePayloadView, ProtocolMsg, ProtocolMsgView};
use crate::types::{Coin, CoinView, CosmosMsg, CosmosMsgView, Uint128, WasmMsg, WasmMsgView};
use vstd::prelude::*;

verus! {

/// Model of a call of a protocol contract.
pub open spec fn call_view(
    contract_addr: Seq<char>,
    msg: ProtocolMsgView,
    funds: Seq<CoinView>,
) -> CosmosMsgView {
    CosmosMsgView::Wasm(
        WasmMsgView::Execute { contract_addr, msg: ExecutePayloadView::Protocol(msg), funds },
    )
}

/// Model of a call of a token contract. Token calls carry no native funds.
pub open spec fn token_call_view(token: Seq<char>, msg: Cw20ExecuteMsgView) -> CosmosMsgView {
    CosmosMsgView::Wasm(
        WasmMsgView::Execute {
            contract_addr: token,
            msg: ExecutePayloadView::Cw20(msg),
            funds: Seq::empty(),
        },
    )
}

/// Model of the primary action on tokens: `amount` of `token` goes from the caller to
/// `contract`, which then runs `msg`.
pub open spec fn token_send_view(
    token: Seq<char>,
    contract: Seq<char>,
    amount: u128,
    msg: ProtocolMsgView,
) -> CosmosMsgView {
    token_call_view(token, Cw20ExecuteMsgView::Send { contract, amount, msg })
}

/// Model of the custodial transfer: `amount` of `token` goes from `owner` to `recipient`.
pub open spec fn transfer_from_view(
    token: Seq<char>,
    owner: Seq<char>,
    recipient: Seq<char>,
    amount: u128,
) -> CosmosMsgView {
    token_call_view(token, Cw20ExecuteMsgView::TransferFrom { owner, recipient, amount })
}

/// Model of the funds that hold one coin.
pub open spec fn one_coin_view(denom: Seq<char>, amount: u128) -> Seq<CoinView> {
    seq![CoinView { denom, amount }]
}

/// No funds.
pub fn no_funds() -> (r: Vec<Coin>)
    ensures
        r.deep_view() == Seq::<CoinView>::empty(),
{
    let r: Vec<Coin> = Vec::new();
    assert(r.deep_view() =~= Seq::<CoinView>::empty());
    r
}

/// Funds of one coin.
pub fn one_coin(denom: String, amount: Uint128) -> (r: Vec<Coin>)
    ensures
        r.deep_view() == one_coin_view(denom@, amount),
{
    let mut r: Vec<Coin> = Vec::new();
    r.push(Coin { denom, amount });
    assert(r.deep_view() =~= one_coin_view(denom@, amount));
    r
}

/// A call of a protocol contract, with funds attached.
pub fn call(contract_addr: String, msg: ProtocolMsg, funds: Vec<Coin>) -> (r: CosmosMsg)
    ensures
        r.deep_view() == call_view(contract_addr@, msg.deep_view(), funds.deep_view()),
{
    CosmosMsg::Wasm(WasmMsg::Execute { contract_addr, msg: ExecutePayload::Protocol(msg), funds })
}

/// A call of a token contract.
pub fn token_call(token: String, msg: Cw20ExecuteMsg) -> (r: CosmosMsg)
    ensures
        r.deep_view() == token_call_view(token@, msg.deep_view()),
{
    CosmosMsg::Wasm(
        WasmMsg::Execute { contract_addr: token, msg: ExecutePayload::Cw20(msg), funds: no_funds() },
    )
}

/// The primary action on tokens: sends `amount` of `token` to `contract` with a payload.
pub fn token_send(token: String, contract: String, amount: Uint128, msg: ProtocolMsg) -> (r: CosmosMsg)
    ensures
        r.deep_view() == token_send_view(token@, contract@, amount, msg.deep_view()),
{
    token_call(token, Cw20ExecuteMsg::Send { contract, amount, msg })
}

/// The custodial transfer of `amount` of `token` from `owner` to `recipient`.
pub fn transfer_from(token: String, owner: String, recipient: String, amount: Uint128) -> (r: CosmosMsg)
    ensures
        r.deep_view() == transfer_from_view(token@, owner@, recipient@, amount),
{
    token_call(token, Cw20ExecuteMsg::TransferFrom { owner, recipient, amount })
}

/// Puts a message at the end of a list.
pub fn push_msg(list: &mut Vec<CosmosMsg>, msg: CosmosMsg)
    ensures
        final(list).deep_view() == old(list).deep_view().push(msg.deep_view()),
{
    list.push(msg);
    assert(list.deep_view() =~= old(list).deep_view().push(msg.deep_view()));
}

/// The list of one message.
pub fn single(msg: CosmosMsg) -> (r: Vec<CosmosMsg>)
    ensures
        r.deep_view() == seq![msg.deep_view()],
{
    let mut r: Vec<CosmosMsg> = Vec::new();
    r.push(msg);
    assert(r.deep_view() =~= seq![msg.deep_view()]);
    r
}

} // verus!
