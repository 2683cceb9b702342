//! Operations on the liquid staking hub.

use crate::composer::{call, call_view, no_funds, one_coin, one_coin_view, single};
use crate::gateway::{StateQuery, StateQueryView, Step, StepView};
use crate::hop::{send_with_hop, send_with_hop_view};
use crate::orchai::orai_staking::{BondType, OraiStakingExecuteMsg, OraiStakingExecuteMsgView};
use crate::orchai::querier::query_token_balance;
use crate::orchai_liquid_staking::state::{Config, ConfigView};
use crate::payload::{ProtocolMsg, ProtocolMsgView};
use crate::resolver::{Quantity, QuantityView, quantity, quantity_view};
use crate::types::{
    Addr,
    CosmosMsg,
    CosmosMsgView,
    Env,
    StdErrorView,
    StdResult,
    Uint128,
    result_view,
};
use vstd::prelude::*;

verus! {

/// Model of [`query_orai_staking_bond_msg`].
pub open spec fn staking_bond_view(
    config: ConfigView,
    sender: Option<Seq<char>>,
    bond_type: BondType,
    amount: Option<u128>,
) -> Result<StepView, StdErrorView> {
    match quantity_view(sender, amount) {
        Ok(QuantityView::Given(amount)) => Ok(
            StepView::Emit(
                seq![
                    call_view(
                        config.orai_staking_hub,
                        ProtocolMsgView::OraiStaking(OraiStakingExecuteMsgView::Bond { bond_type }),
                        one_coin_view(config.orai_staking_denom, amount),
                    ),
                ],
            ),
        ),
        Ok(QuantityView::AllOf(sender)) => Ok(
            StepView::Ask(
                StateQueryView::NativeBalance { account: sender, denom: config.orai_staking_denom },
            ),
        ),
        Err(e) => Err(e),
    }
}

/// Bonds native tokens at the hub: one call with the tokens attached as funds. Without an
/// amount the sender's whole balance in the staking denomination is meant, and the question
/// for it comes back; without amount and sender the operation is refused.
pub fn query_orai_staking_bond_msg(
    config: &Config,
    _env: Env,
    sender: Option<Addr>,
    bond_type: BondType,
    amount: Option<Uint128>,
) -> (r: StdResult<Step>)
    ensures
        result_view(r) == staking_bond_view(
            config.deep_view(),
            sender.deep_view(),
            bond_type,
            amount,
        ),
{
    match quantity(sender, amount)? {
        Quantity::Given(amount) => {
            let msg = call(
                config.orai_staking_hub.clone(),
                ProtocolMsg::OraiStaking(OraiStakingExecuteMsg::Bond { bond_type }),
                one_coin(config.orai_staking_denom.clone(), amount),
            );
            Ok(Step::Emit(single(msg)))
        },
        Quantity::AllOf(sender) => Ok(
            Step::Ask(
                StateQuery::NativeBalance {
                    account: sender,
                    denom: config.orai_staking_denom.clone(),
                },
            ),
        ),
    }
}

/// Model of [`query_orai_staking_unbond_msg`].
pub open spec fn staking_unbond_view(
    config: ConfigView,
    executor_addr: Seq<char>,
    sender: Seq<char>,
    token: Seq<char>,
    amount: Option<u128>,
) -> StepView {
    send_with_hop_view(
        token,
        sender,
        executor_addr,
        amount,
        config.orai_staking_hub,
        ProtocolMsgView::OraiStaking(OraiStakingExecuteMsgView::Unbond {  }),
    )
}

/// Unbonds staked tokens of `sender`: the hop to the executor where the two differ, then the
/// send to the hub. Without an amount the sender's whole balance of the staked token is
/// meant, and the question for it comes back.
pub fn query_orai_staking_unbond_msg(
    config: &Config,
    _env: Env,
    executor_addr: Addr,
    sender: Addr,
    token: Addr,
    amount: Option<Uint128>,
) -> (r: StdResult<Step>)
    ensures
        result_view(r) == Ok::<StepView, StdErrorView>(
            staking_unbond_view(config.deep_view(), executor_addr@, sender@, token@, amount),
        ),
{
    match amount {
        Some(amount) => Ok(
            Step::Emit(
                send_with_hop(
                    token,
                    sender,
                    executor_addr,
                    amount,
                    config.orai_staking_hub.clone(),
                    ProtocolMsg::OraiStaking(OraiStakingExecuteMsg::Unbond {  }),
                ),
            ),
        ),
        None => Ok(Step::Ask(query_token_balance(token, sender))),
    }
}

/// Model of [`query_orai_staking_claim_rewards_msg`].
pub open spec fn staking_claim_rewards_view(config: ConfigView, recipient: Option<Seq<char>>) -> Seq<
    CosmosMsgView,
> {
    seq![
        call_view(
            config.orai_staking_reward,
            ProtocolMsgView::OraiStaking(OraiStakingExecuteMsgView::ClaimRewards { recipient }),
            Seq::empty(),
        ),
    ]
}

/// Claims staking rewards: one call of the reward contract.
pub fn query_orai_staking_claim_rewards_msg(
    config: &Config,
    _env: Env,
    recipient: Option<String>,
) -> (r: StdResult<Vec<CosmosMsg>>)
    ensures
        result_view(r) == Ok::<Seq<CosmosMsgView>, StdErrorView>(
            staking_claim_rewards_view(config.deep_view(), recipient.deep_view()),
        ),
{
    let msg = call(
        config.orai_staking_reward.clone(),
        ProtocolMsg::OraiStaking(OraiStakingExecuteMsg::ClaimRewards { recipient }),
        no_funds(),
    );
    Ok(single(msg))
}

/// Model of [`query_orai_staking_convert_msg`].
pub open spec fn staking_convert_view(
    config: ConfigView,
    executor_addr: Seq<char>,
    sender: Seq<char>,
    from_token: Seq<char>,
    amount: Option<u128>,
) -> StepView {
    send_with_hop_view(
        from_token,
        sender,
        executor_addr,
        amount,
        config.orai_staking_hub,
        ProtocolMsgView::OraiStaking(OraiStakingExecuteMsgView::Convert {  }),
    )
}

/// Converts one staked token of `sender` into the other: the hop to the executor where the
/// two differ, then the send to the hub. Without an amount the sender's whole balance of the
/// token is meant, and the question for it comes back.
pub fn query_orai_staking_convert_msg(
    config: &Config,
    _env: Env,
    executor_addr: Addr,
    sender: Addr,
    from_token: Addr,
    amount: Option<Uint128>,
) -> (r: StdResult<Step>)
    ensures
        result_view(r) == Ok::<StepView, StdErrorView>(
            staking_convert_view(config.deep_view(), executor_addr@, sender@, from_token@, amount),
        ),
{
    match amount {
        Some(amount) => Ok(
            Step::Emit(
                send_with_hop(
                    from_token,
                    sender,
                    executor_addr,
                    amount,
                    config.orai_staking_hub.clone(),
                    ProtocolMsg::OraiStaking(OraiStakingExecuteMsg::Convert {  }),
                ),
            ),
        ),
        None => Ok(Step::Ask(query_token_balance(from_token, sender))),
    }
}

} // verus!
