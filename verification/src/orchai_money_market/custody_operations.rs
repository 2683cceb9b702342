//! Operations on a custody contract.

use crate::composer::{call, call_view, no_funds, single};
use crate::orchai::custody::{CustodyExecuteMsg, CustodyExecuteMsgView};
use crate::orchai_money_market::state::{
    CollateralInfoView,
    CollateralRegistry,
    read_collateral_info,
    read_collateral_info_view,
};
use crate::payload::{ProtocolMsg, ProtocolMsgView};
use crate::types::{Addr, CosmosMsg, CosmosMsgView, Env, StdErrorView, StdResult, result_view};
use vstd::prelude::*;

verus! {

/// Model of [`query_custody_claim_rewards_msgs`].
pub open spec fn custody_claim_rewards_view(
    records: Map<Seq<char>, CollateralInfoView>,
    collateral: Seq<char>,
    recipient: Option<Seq<char>>,
) -> Result<Seq<CosmosMsgView>, StdErrorView> {
    match read_collateral_info_view(records, collateral) {
        Ok(info) => Ok(
            seq![
                call_view(
                    info.custody_contract,
                    ProtocolMsgView::Custody(CustodyExecuteMsgView::ClaimRewards { recipient }),
                    Seq::empty(),
                ),
            ],
        ),
        Err(e) => Err(e),
    }
}

/// Claims the rewards that a collateral has accrued: one call of the custody contract on
/// record for the collateral. Fails where the collateral has no record.
pub fn query_custody_claim_rewards_msgs(
    storage: &CollateralRegistry,
    _env: Env,
    collateral: Addr,
    recipient: Option<String>,
) -> (r: StdResult<Vec<CosmosMsg>>)
    ensures
        result_view(r) == custody_claim_rewards_view(storage@, collateral@, recipient.deep_view()),
{
    let collateral_info = read_collateral_info(storage, &collateral)?;
    let msg = call(
        collateral_info.custody_contract,
        ProtocolMsg::Custody(CustodyExecuteMsg::ClaimRewards { recipient }),
        no_funds(),
    );
    Ok(single(msg))
}

} // verus!
