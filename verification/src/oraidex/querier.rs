//! The questions that the swap and staking operations put to the chain.

use crate::gateway::{StateQuery, StateQueryView};
use crate::oraidex::asset::{AssetInfo, AssetInfoView};
use crate::oraidex::staking::{
    RewardInfoResponse,
    RewardInfoResponseItem,
    RewardInfoResponseItemView,
    StakingQueryMsg,
    StakingQueryMsgView,
};
use crate::types::{Addr, Uint128};
use vstd::prelude::*;

verus! {

/// The question for the balance of `account_addr` at the token `contract_addr`.
pub fn query_token_balance(contract_addr: Addr, account_addr: Addr) -> (r: StateQuery)
    ensures
        r.deep_view() == (StateQueryView::TokenBalance {
            token: contract_addr@,
            account: account_addr@,
        }),
{
    StateQuery::TokenBalance { token: contract_addr, account: account_addr }
}

/// The question for what `staker_addr` has bonded in the pool of `asset_info`.
pub fn query_staking_amount(staking_contract: Addr, staker_addr: Addr, asset_info: AssetInfo) -> (r:
    StateQuery)
    ensures
        r.deep_view() == (StateQueryView::StakedAmount {
            staking: staking_contract@,
            staker: staker_addr@,
            asset_info: asset_info.deep_view(),
        }),
{
    StateQuery::StakedAmount { staking: staking_contract, staker: staker_addr, asset_info }
}

/// Model of [`bonded_amount`]: the bond of the first entry that is about `asset_info`.
pub open spec fn bonded_amount_view(
    reward_infos: Seq<RewardInfoResponseItemView>,
    asset_info: AssetInfoView,
) -> Option<u128>
    decreases reward_infos.len(),
{
    if reward_infos.len() == 0 {
        None
    } else if reward_infos[0].asset_info == asset_info {
        Some(reward_infos[0].bond_amount)
    } else {
        bonded_amount_view(reward_infos.drop_first(), asset_info)
    }
}

/// What the staker has bonded in the pool of `asset_info`, by the answer of the staking
/// contract; `None` where the answer has no entry for that pool.
pub fn bonded_amount(response: &RewardInfoResponse, asset_info: &AssetInfo) -> (r: Option<Uint128>)
    ensures
        r == bonded_amount_view(response.deep_view().reward_infos, asset_info.deep_view()),
{
    let ghost all = response.deep_view().reward_infos;
    let mut i: usize = 0;
    assert(all.skip(0) =~= all);
    while i < response.reward_infos.len()
        invariant
            i <= response.reward_infos.len(),
            all == response.deep_view().reward_infos,
            all.len() == response.reward_infos.len(),
            bonded_amount_view(all, asset_info.deep_view()) == bonded_amount_view(
                all.skip(i as int),
                asset_info.deep_view(),
            ),
        decreases response.reward_infos.len() - i,
    {
        let item: &RewardInfoResponseItem = &response.reward_infos[i];
        assert(all.skip(i as int)[0] == item.deep_view());
        assert(all.skip(i as int).drop_first() =~= all.skip(i + 1));
        if item.asset_info.same(asset_info) {
            return Some(item.bond_amount);
        }
        i += 1;
    }
    assert(all.skip(i as int).len() == 0);
    None
}

/// The message that asks the staking contract for the position of `staker_addr` in the pool
/// of `asset_info`.
pub fn reward_info_query_msg(staker_addr: Addr, asset_info: AssetInfo) -> (r: StakingQueryMsg)
    ensures
        r.deep_view() == (StakingQueryMsgView::RewardInfo {
            staker_addr: staker_addr@,
            asset_info: Some(asset_info.deep_view()),
        }),
{
    StakingQueryMsg::RewardInfo { staker_addr, asset_info: Some(asset_info) }
}

} // verus!
