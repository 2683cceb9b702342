//! Operations on the lending market.

use crate::composer::{call, call_view, no_funds, push_msg, single, token_send, token_send_view};
use crate::gateway::{Step, StepView};
use crate::hop::{inject_hop, send_with_hop, send_with_hop_view, with_hop_view};
use crate::orchai::market::{
    AStableRewardExecuteMsg,
    AStableRewardExecuteMsgView,
    MarketExecuteMsg,
    MarketExecuteMsgView,
};
use crate::orchai::querier::query_token_balance;
use crate::orchai_money_market::state::{Config, ConfigView};
use crate::payload::{ProtocolMsg, ProtocolMsgView};
use crate::types::{
    Addr,
    CosmosMsg,
    CosmosMsgView,
    Env,
    StdErrorView,
    StdResult,
    Uint128,
    result_view,
};
use crate::uint256::Uint256;
use vstd::prelude::*;

verus! {

/// Model of a call of the market.
pub open spec fn market_call_view(config: ConfigView, msg: MarketExecuteMsgView) -> CosmosMsgView {
    call_view(config.market, ProtocolMsgView::Market(msg), Seq::empty())
}

/// Model of [`query_market_borrow_stable_msgs`].
pub open spec fn borrow_stable_view(
    config: ConfigView,
    borrow_amount: Uint256,
    to: Option<Seq<char>>,
) -> Seq<CosmosMsgView> {
    seq![market_call_view(config, MarketExecuteMsgView::BorrowStable { borrow_amount, to })]
}

/// Borrows stable coins: one call of the market.
pub fn query_market_borrow_stable_msgs(
    config: &Config,
    _env: Env,
    borrow_amount: Uint256,
    to: Option<String>,
) -> (r: StdResult<Vec<CosmosMsg>>)
    ensures
        result_view(r) == Ok::<Seq<CosmosMsgView>, StdErrorView>(
            borrow_stable_view(config.deep_view(), borrow_amount, to.deep_view()),
        ),
{
    let msg = call(
        config.market.clone(),
        ProtocolMsg::Market(MarketExecuteMsg::BorrowStable { borrow_amount, to }),
        no_funds(),
    );
    Ok(single(msg))
}

/// Model of [`query_market_deposit_stable_msgs`].
pub open spec fn deposit_stable_view(
    config: ConfigView,
    executor_addr: Seq<char>,
    sender: Seq<char>,
    stable_amount: Option<u128>,
) -> StepView {
    send_with_hop_view(
        config.stable_addr,
        sender,
        executor_addr,
        stable_amount,
        config.market,
        ProtocolMsgView::Market(MarketExecuteMsgView::DepositStable {  }),
    )
}

/// Deposits stable coins of `sender`: the hop to the executor where the two differ, then the
/// send to the market. Without an amount the sender's whole stable balance is meant, and the
/// question for it comes back.
pub fn query_market_deposit_stable_msgs(
    config: &Config,
    _env: Env,
    executor_addr: Addr,
    sender: Addr,
    stable_amount: Option<Uint128>,
) -> (r: StdResult<Step>)
    ensures
        result_view(r) == Ok::<StepView, StdErrorView>(
            deposit_stable_view(config.deep_view(), executor_addr@, sender@, stable_amount),
        ),
{
    match stable_amount {
        Some(amount) => Ok(
            Step::Emit(
                send_with_hop(
                    config.stable_addr.clone(),
                    sender,
                    executor_addr,
                    amount,
                    config.market.clone(),
                    ProtocolMsg::Market(MarketExecuteMsg::DepositStable {  }),
                ),
            ),
        ),
        None => Ok(Step::Ask(query_token_balance(config.stable_addr.clone(), sender))),
    }
}

/// Model of [`query_market_redeem_stable_msgs`].
pub open spec fn redeem_stable_view(
    config: ConfigView,
    executor_addr: Seq<char>,
    sender: Seq<char>,
    a_stable_amount: Option<u128>,
) -> StepView {
    send_with_hop_view(
        config.a_stable_contract,
        sender,
        executor_addr,
        a_stable_amount,
        config.market,
        ProtocolMsgView::Market(MarketExecuteMsgView::RedeemStable {  }),
    )
}

/// Redeems interest-bearing tokens of `sender`: the hop to the executor where the two differ,
/// then the send to the market. Without an amount the sender's whole balance of the
/// interest-bearing token is meant, and the question for it comes back.
pub fn query_market_redeem_stable_msgs(
    config: &Config,
    _env: Env,
    executor_addr: Addr,
    sender: Addr,
    a_stable_amount: Option<Uint128>,
) -> (r: StdResult<Step>)
    ensures
        result_view(r) == Ok::<StepView, StdErrorView>(
            redeem_stable_view(config.deep_view(), executor_addr@, sender@, a_stable_amount),
        ),
{
    match a_stable_amount {
        Some(amount) => Ok(
            Step::Emit(
                send_with_hop(
                    config.a_stable_contract.clone(),
                    sender,
                    executor_addr,
                    amount,
                    config.market.clone(),
                    ProtocolMsg::Market(MarketExecuteMsg::RedeemStable {  }),
                ),
            ),
        ),
        None => Ok(Step::Ask(query_token_balance(config.a_stable_contract.clone(), sender))),
    }
}

/// Model of [`query_market_repay_stable_msgs`].
pub open spec fn repay_stable_view(
    config: ConfigView,
    amount: u128,
    executor_addr: Seq<char>,
    sender: Seq<char>,
) -> Seq<CosmosMsgView> {
    with_hop_view(
        config.stable_addr,
        sender,
        executor_addr,
        amount,
        seq![
            token_send_view(
                config.stable_addr,
                config.market,
                amount,
                ProtocolMsgView::Market(MarketExecuteMsgView::RepayStable {  }),
            ),
        ],
    )
}

/// Repays `amount` of stable coins of `sender`: the hop to the executor where the two differ,
/// then the send to the market.
pub fn query_market_repay_stable_msgs(
    config: &Config,
    _env: Env,
    amount: Uint128,
    executor_addr: Addr,
    sender: Addr,
) -> (r: StdResult<Vec<CosmosMsg>>)
    ensures
        result_view(r) == Ok::<Seq<CosmosMsgView>, StdErrorView>(
            repay_stable_view(config.deep_view(), amount, executor_addr@, sender@),
        ),
{
    let mut messages = inject_hop(&config.stable_addr, &sender, &executor_addr, amount);
    push_msg(
        &mut messages,
        token_send(
            config.stable_addr.clone(),
            config.market.clone(),
            amount,
            ProtocolMsg::Market(MarketExecuteMsg::RepayStable {  }),
        ),
    );
    assert(messages.deep_view() =~= repay_stable_view(
        config.deep_view(),
        amount,
        executor_addr@,
        sender@,
    ));
    Ok(messages)
}

/// Model of [`query_market_repay_stable_for_msgs`].
pub open spec fn repay_stable_for_view(config: ConfigView, amount: u128, borrower: Seq<char>) -> Seq<
    CosmosMsgView,
> {
    seq![
        token_send_view(
            config.stable_addr,
            config.market,
            amount,
            ProtocolMsgView::Market(MarketExecuteMsgView::RepayStableFor { borrower }),
        ),
    ]
}

/// Repays `amount` of stable coins on behalf of `borrower`: one send to the market.
pub fn query_market_repay_stable_for_msgs(
    config: &Config,
    _env: Env,
    amount: Uint128,
    borrower: String,
) -> (r: StdResult<Vec<CosmosMsg>>)
    ensures
        result_view(r) == Ok::<Seq<CosmosMsgView>, StdErrorView>(
            repay_stable_for_view(config.deep_view(), amount, borrower@),
        ),
{
    let msg = token_send(
        config.stable_addr.clone(),
        config.market.clone(),
        amount,
        ProtocolMsg::Market(MarketExecuteMsg::RepayStableFor { borrower }),
    );
    Ok(single(msg))
}

/// Model of [`query_market_claim_borrower_rewards_msgs`].
pub open spec fn claim_borrower_rewards_view(config: ConfigView, to: Option<Seq<char>>) -> Seq<
    CosmosMsgView,
> {
    seq![market_call_view(config, MarketExecuteMsgView::ClaimRewards { to })]
}

/// Claims the rewards of a borrower: one call of the market.
pub fn query_market_claim_borrower_rewards_msgs(config: &Config, _env: Env, to: Option<String>) -> (r:
    StdResult<Vec<CosmosMsg>>)
    ensures
        result_view(r) == Ok::<Seq<CosmosMsgView>, StdErrorView>(
            claim_borrower_rewards_view(config.deep_view(), to.deep_view()),
        ),
{
    let msg = call(
        config.market.clone(),
        ProtocolMsg::Market(MarketExecuteMsg::ClaimRewards { to }),
        no_funds(),
    );
    Ok(single(msg))
}

/// Model of [`query_market_claim_lender_rewards_msgs`].
pub open spec fn claim_lender_rewards_view(config: ConfigView, to: Option<Seq<char>>) -> Seq<
    CosmosMsgView,
> {
    seq![
        call_view(
            config.a_stable_contract_reward,
            ProtocolMsgView::AStableReward(
                AStableRewardExecuteMsgView::ClaimRewards { recipient: to },
            ),
            Seq::empty(),
        ),
    ]
}

/// Claims the rewards of a lender: one call of the lender reward contract.
pub fn query_market_claim_lender_rewards_msgs(config: &Config, _env: Env, to: Option<String>) -> (r:
    StdResult<Vec<CosmosMsg>>)
    ensures
        result_view(r) == Ok::<Seq<CosmosMsgView>, StdErrorView>(
            claim_lender_rewards_view(config.deep_view(), to.deep_view()),
        ),
{
    let msg = call(
        config.a_stable_contract_reward.clone(),
        ProtocolMsg::AStableReward(AStableRewardExecuteMsg::ClaimRewards { recipient: to }),
        no_funds(),
    );
    Ok(single(msg))
}

} // verus!
