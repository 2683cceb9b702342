//! Conversions between a native denomination and its token.

use crate::composer::{call, call_view, one_coin, one_coin_view, single};
use crate::gateway::{StateQuery, StateQueryView, Step, StepView};
use crate::hop::{send_with_hop, send_with_hop_view};
use crate::payload::{ProtocolMsg, ProtocolMsgView};
use crate::types::{Addr, StdErrorView, StdResult, Uint128, result_view};
use crate::utility::querier::query_token_balance;
use crate::utility::wrapped::{WrappedExecuteMsg, WrappedExecuteMsgView};
use crate::utility_operations::state::{Config, ConfigView};
use vstd::prelude::*;

verus! {

/// Model of [`query_wrapped_convert_to_denom`].
pub open spec fn convert_to_denom_view(
    config: ConfigView,
    from_token: Seq<char>,
    target_denom: Seq<char>,
    executor_addr: Seq<char>,
    sender: Seq<char>,
    amount: Option<u128>,
) -> StepView {
    send_with_hop_view(
        from_token,
        sender,
        executor_addr,
        amount,
        config.wrapped_contract,
        ProtocolMsgView::Wrapped(WrappedExecuteMsgView::ConvertToDenom { target_denom }),
    )
}

/// Converts tokens of `sender` into a native denomination: the hop to the executor where the
/// two differ, then the send to the wrapping contract. Without an amount the sender's whole
/// balance of the token is meant, and the question for it comes back.
pub fn query_wrapped_convert_to_denom(
    config: &Config,
    from_token: Addr,
    target_denom: String,
    executor_addr: Addr,
    sender: Addr,
    amount: Option<Uint128>,
) -> (r: StdResult<Step>)
    ensures
        result_view(r) == Ok::<StepView, StdErrorView>(
            convert_to_denom_view(
                config.deep_view(),
                from_token@,
                target_denom@,
                executor_addr@,
                sender@,
                amount,
            ),
        ),
{
    match amount {
        Some(amount) => Ok(
            Step::Emit(
                send_with_hop(
                    from_token,
                    sender,
                    executor_addr,
                    amount,
                    config.wrapped_contract.clone(),
                    ProtocolMsg::Wrapped(WrappedExecuteMsg::ConvertToDenom { target_denom }),
                ),
            ),
        ),
        None => Ok(Step::Ask(query_token_balance(from_token, sender))),
    }
}

/// Model of [`query_wrapped_convert_to_cw20`].
pub open spec fn convert_to_cw20_view(
    config: ConfigView,
    from_denom: Seq<char>,
    executor_addr: Seq<char>,
    amount: Option<u128>,
) -> StepView {
    match amount {
        Some(amount) => StepView::Emit(
            seq![
                call_view(
                    config.wrapped_contract,
                    ProtocolMsgView::Wrapped(WrappedExecuteMsgView::ConvertToCw20 {  }),
                    one_coin_view(from_denom, amount),
                ),
            ],
        ),
        None => StepView::Ask(
            StateQueryView::NativeBalance { account: executor_addr, denom: from_denom },
        ),
    }
}

/// Converts native tokens of the executor into their token: one call of the wrapping
/// contract with the tokens attached as funds. Without an amount the executor's whole balance
/// in the denomination is meant, and the question for it comes back.
pub fn query_wrapped_convert_to_cw20(
    config: &Config,
    from_denom: String,
    executor_addr: Addr,
    amount: Option<Uint128>,
) -> (r: StdResult<Step>)
    ensures
        result_view(r) == Ok::<StepView, StdErrorView>(
            convert_to_cw20_view(config.deep_view(), from_denom@, executor_addr@, amount),
        ),
{
    match amount {
        Some(amount) => {
            let msg = call(
                config.wrapped_contract.clone(),
                ProtocolMsg::Wrapped(WrappedExecuteMsg::ConvertToCw20 {  }),
                one_coin(from_denom, amount),
            );
            Ok(Step::Emit(single(msg)))
        },
        None => Ok(Step::Ask(StateQuery::NativeBalance { account: executor_addr, denom: from_denom })),
    }
}

} // verus!
