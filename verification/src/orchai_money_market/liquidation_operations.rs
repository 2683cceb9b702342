//! Operations on the liquidation queue.

use crate::composer::{call, call_view, no_funds, single, token_send, token_send_view};
use crate::gateway::{StateQueryView, Step, StepView};
use crate::orchai::liquidation::{LiquidationExecuteMsg, LiquidationExecuteMsgView};
use crate::orchai::querier::query_token_balance;
use crate::orchai_money_market::state::{Config, ConfigView};
use crate::payload::{ProtocolMsg, ProtocolMsgView};
use crate::resolver::{Quantity, QuantityView, quantity, quantity_view};
use crate::types::{
    Addr,
    CosmosMsg,
    CosmosMsgView,
    Env,
    StdErrorView,
    StdResult,
    Uint128,
    result_view,
};
use crate::uint256::Uint256;
use vstd::prelude::*;

verus! {

/// Model of a call of the liquidation queue.
pub open spec fn liquidation_call_view(config: ConfigView, msg: LiquidationExecuteMsgView) -> Seq<
    CosmosMsgView,
> {
    seq![call_view(config.liquidation, ProtocolMsgView::Liquidation(msg), Seq::empty())]
}

/// Model of [`query_liquidation_submit_bid_msg`].
pub open spec fn submit_bid_view(
    config: ConfigView,
    sender: Option<Seq<char>>,
    amount: Option<u128>,
    collateral_token: Seq<char>,
    premium_slot: u8,
) -> Result<StepView, StdErrorView> {
    match quantity_view(sender, amount) {
        Ok(QuantityView::Given(amount)) => Ok(
            StepView::Emit(
                seq![
                    token_send_view(
                        config.stable_addr,
                        config.liquidation,
                        amount,
                        ProtocolMsgView::Liquidation(
                            LiquidationExecuteMsgView::SubmitBid { collateral_token, premium_slot },
                        ),
                    ),
                ],
            ),
        ),
        Ok(QuantityView::AllOf(sender)) => Ok(
            StepView::Ask(StateQueryView::TokenBalance { token: config.stable_addr, account: sender }),
        ),
        Err(e) => Err(e),
    }
}

/// Bids stable coins for a collateral: one send to the liquidation queue. Without an amount
/// the sender's whole stable balance is meant, and the question for it comes back; without
/// amount and sender the bid is refused.
pub fn query_liquidation_submit_bid_msg(
    config: &Config,
    _env: Env,
    sender: Option<Addr>,
    amount: Option<Uint128>,
    collateral_token: Addr,
    premium_slot: u8,
) -> (r: StdResult<Step>)
    ensures
        result_view(r) == submit_bid_view(
            config.deep_view(),
            sender.deep_view(),
            amount,
            collateral_token@,
            premium_slot,
        ),
{
    match quantity(sender, amount)? {
        Quantity::Given(amount) => {
            let msg = token_send(
                config.stable_addr.clone(),
                config.liquidation.clone(),
                amount,
                ProtocolMsg::Liquidation(
                    LiquidationExecuteMsg::SubmitBid { collateral_token, premium_slot },
                ),
            );
            Ok(Step::Emit(single(msg)))
        },
        Quantity::AllOf(sender) => Ok(
            Step::Ask(query_token_balance(config.stable_addr.clone(), sender)),
        ),
    }
}

/// Withdraws a bid: one call of the liquidation queue.
pub fn query_liquidation_retract_bid_msg(
    config: &Config,
    _env: Env,
    bid_idx: Uint128,
    amount: Option<Uint256>,
) -> (r: StdResult<Vec<CosmosMsg>>)
    ensures
        result_view(r) == Ok::<Seq<CosmosMsgView>, StdErrorView>(
            liquidation_call_view(
                config.deep_view(),
                LiquidationExecuteMsgView::RetractBid { bid_idx, amount },
            ),
        ),
{
    let msg = call(
        config.liquidation.clone(),
        ProtocolMsg::Liquidation(LiquidationExecuteMsg::RetractBid { bid_idx, amount }),
        no_funds(),
    );
    Ok(single(msg))
}

/// Activates bids for a collateral: one call of the liquidation queue.
pub fn query_liquidation_activate_bids_msg(
    config: &Config,
    _env: Env,
    collateral_token: Addr,
    bids_idx: Option<Vec<Uint128>>,
) -> (r: StdResult<Vec<CosmosMsg>>)
    ensures
        result_view(r) == Ok::<Seq<CosmosMsgView>, StdErrorView>(
            liquidation_call_view(
                config.deep_view(),
                LiquidationExecuteMsgView::ActivateBids {
                    collateral_token: collateral_token@,
                    bids_idx: bids_idx.deep_view(),
                },
            ),
        ),
{
    let msg = call(
        config.liquidation.clone(),
        ProtocolMsg::Liquidation(LiquidationExecuteMsg::ActivateBids { collateral_token, bids_idx }),
        no_funds(),
    );
    Ok(single(msg))
}

/// Claims the collateral that bids have bought: one call of the liquidation queue.
pub fn query_liquidation_claim_liquidations_msg(
    config: &Config,
    _env: Env,
    collateral_token: Addr,
    bids_idx: Option<Vec<Uint128>>,
) -> (r: StdResult<Vec<CosmosMsg>>)
    ensures
        result_view(r) == Ok::<Seq<CosmosMsgView>, StdErrorView>(
            liquidation_call_view(
                config.deep_view(),
                LiquidationExecuteMsgView::ClaimLiquidations {
                    collateral_token: collateral_token@,
                    bids_idx: bids_idx.deep_view(),
                },
            ),
        ),
{
    let msg = call(
        config.liquidation.clone(),
        ProtocolMsg::Liquidation(
            LiquidationExecuteMsg::ClaimLiquidations { collateral_token, bids_idx },
        ),
        no_funds(),
    );
    Ok(single(msg))
}

/// Claims the lending rewards of bids: one call of the liquidation queue.
pub fn query_liquidation_claim_lending_rewards_msg(
    config: &Config,
    _env: Env,
    collateral_token: Addr,
    bids_idx: Option<Vec<Uint128>>,
) -> (r: StdResult<Vec<CosmosMsg>>)
    ensures
        result_view(r) == Ok::<Seq<CosmosMsgView>, StdErrorView>(
            liquidation_call_view(
                config.deep_view(),
                LiquidationExecuteMsgView::ClaimLendingRewards {
                    collateral_token: collateral_token@,
                    bids_idx: bids_idx.deep_view(),
                },
            ),
        ),
{
    let msg = call(
        config.liquidation.clone(),
        ProtocolMsg::Liquidation(
            LiquidationExecuteMsg::ClaimLendingRewards { collateral_token, bids_idx },
        ),
        no_funds(),
    );
    Ok(single(msg))
}

} // verus!
