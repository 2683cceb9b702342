//! The operation on the strategy registry.

use crate::composer::{call, call_view, no_funds, single};
use crate::payload::{ProtocolMsg, ProtocolMsgView};
use crate::strategy::strategy::{StrategyExecuteMsg, StrategyExecuteMsgView};
use crate::strategy_operations::state::{Config, ConfigView};
use crate::types::{Addr, CosmosMsg, CosmosMsgView, StdErrorView, StdResult, result_view};
use vstd::prelude::*;

verus! {

/// Model of [`query_verify_strategy_msg`].
pub open spec fn verify_strategy_view(config: ConfigView, creator: Seq<char>, id: Seq<char>) -> Seq<
    CosmosMsgView,
> {
    seq![
        call_view(
            config.strategy_contract,
            ProtocolMsgView::Strategy(StrategyExecuteMsgView::VerifyStrategy { creator, id }),
            Seq::empty(),
        ),
    ]
}

/// Verifies a strategy: one call of the strategy registry.
pub fn query_verify_strategy_msg(config: &Config, creator: Addr, id: String) -> (r: StdResult<
    Vec<CosmosMsg>,
>)
    ensures
        result_view(r) == Ok::<Seq<CosmosMsgView>, StdErrorView>(
            verify_strategy_view(config.deep_view(), creator@, id@),
        ),
{
    let msg = call(
        config.strategy_contract.clone(),
        ProtocolMsg::Strategy(StrategyExecuteMsg::VerifyStrategy { creator, id }),
        no_funds(),
    );
    Ok(single(msg))
}

} // verus!
