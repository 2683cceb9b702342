//! Native staking.

use crate::composer::single;
use crate::gateway::{StateQuery, StateQueryView, Step, StepView};
use crate::types::{
    Addr,
    Coin,
    CoinView,
    CosmosMsg,
    CosmosMsgView,
    StakingMsg,
    StakingMsgView,
    StdErrorView,
    StdResult,
    Uint128,
    result_view,
};
use vstd::prelude::*;

verus! {

/// Model of [`query_delegate_msg`].
pub open spec fn delegate_view(
    executor_addr: Seq<char>,
    validator: Seq<char>,
    denom: Seq<char>,
    amount: Option<u128>,
) -> StepView {
    match amount {
        Some(amount) => StepView::Emit(
            seq![
                CosmosMsgView::Staking(
                    StakingMsgView::Delegate { validator, amount: CoinView { denom, amount } },
                ),
            ],
        ),
        None => StepView::Ask(StateQueryView::NativeBalance { account: executor_addr, denom }),
    }
}

/// Delegates native tokens of the executor to a validator: one staking instruction. Without
/// an amount the executor's whole balance in the denomination is meant, and the question for
/// it comes back.
pub fn query_delegate_msg(
    executor_addr: Addr,
    validator: String,
    denom: String,
    amount: Option<Uint128>,
) -> (r: StdResult<Step>)
    ensures
        result_view(r) == Ok::<StepView, StdErrorView>(
            delegate_view(executor_addr@, validator@, denom@, amount),
        ),
{
    match amount {
        Some(amount) => Ok(
            Step::Emit(
                single(
                    CosmosMsg::Staking(
                        StakingMsg::Delegate { validator, amount: Coin { denom, amount } },
                    ),
                ),
            ),
        ),
        None => Ok(Step::Ask(StateQuery::NativeBalance { account: executor_addr, denom })),
    }
}

/// Model of [`query_undelegate_msg`].
pub open spec fn undelegate_view(
    executor_addr: Seq<char>,
    validator: Seq<char>,
    denom: Seq<char>,
    amount: Option<u128>,
) -> StepView {
    match amount {
        Some(amount) => StepView::Emit(
            seq![
                CosmosMsgView::Staking(
                    StakingMsgView::Undelegate { validator, amount: CoinView { denom, amount } },
                ),
            ],
        ),
        None => StepView::Ask(StateQueryView::Delegation { delegator: executor_addr, validator }),
    }
}

/// Undelegates native tokens of the executor from a validator: one staking instruction.
/// Without an amount all that the executor has delegated to the validator is meant, and the
/// question for it comes back.
pub fn query_undelegate_msg(
    executor_addr: Addr,
    validator: String,
    denom: String,
    amount: Option<Uint128>,
) -> (r: StdResult<Step>)
    ensures
        result_view(r) == Ok::<StepView, StdErrorView>(
            undelegate_view(executor_addr@, validator@, denom@, amount),
        ),
{
    match amount {
        Some(amount) => Ok(
            Step::Emit(
                single(
                    CosmosMsg::Staking(
                        StakingMsg::Undelegate { validator, amount: Coin { denom, amount } },
                    ),
                ),
            ),
        ),
        None => Ok(Step::Ask(StateQuery::Delegation { delegator: executor_addr, validator })),
    }
}

} // verus!
