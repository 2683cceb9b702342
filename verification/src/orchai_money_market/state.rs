//! What the adapter keeps.

use crate::types::{Addr, StdError, StdErrorView, StdResult, generic_err_view, result_view};
use vstd::map::*;
use vstd::prelude::*;

verus! {

/// The addresses and parameters that the adapter compiles against.
#[derive(Debug, Clone, PartialEq, Eq)]
pub struct Config {
    pub owner: Addr,
    pub overseer: Addr,
    pub market: Addr,
    pub liquidation: Addr,
    pub stable_addr: Addr,
    pub a_stable_contract: Addr,
    pub a_stable_contract_reward: Addr,
}

/// Mathematical model of [`Config`].
pub ghost struct ConfigView {
    pub owner: Seq<char>,
    pub overseer: Seq<char>,
    pub market: Seq<char>,
    pub liquidation: Seq<char>,
    pub stable_addr: Seq<char>,
    pub a_stable_contract: Seq<char>,
    pub a_stable_contract_reward: Seq<char>,
}

impl DeepView for Config {
    type V = ConfigView;

    open spec fn deep_view(&self) -> ConfigView {
        ConfigView {
            owner: self.owner.deep_view(),
            overseer: self.overseer.deep_view(),
            market: self.market.deep_view(),
            liquidation: self.liquidation.deep_view(),
            stable_addr: self.stable_addr.deep_view(),
            a_stable_contract: self.a_stable_contract.deep_view(),
            a_stable_contract_reward: self.a_stable_contract_reward.deep_view(),
        }
    }
}

/// A collateral token and the custody contract that holds it.
#[derive(Debug, PartialEq, Eq)]
pub struct CollateralInfo {
    pub collateral: Addr,
    pub custody_contract: Addr,
}

/// Mathematical model of [`CollateralInfo`].
pub ghost struct CollateralInfoView {
    pub collateral: Seq<char>,
    pub custody_contract: Seq<char>,
}

impl DeepView for CollateralInfo {
    type V = CollateralInfoView;

    open spec fn deep_view(&self) -> CollateralInfoView {
        CollateralInfoView {
            collateral: self.collateral.deep_view(),
            custody_contract: self.custody_contract.deep_view(),
        }
    }
}

impl Clone for CollateralInfo {
    fn clone(&self) -> (r: Self)
        ensures
            r == *self,
    {
        CollateralInfo {
            collateral: self.collateral.clone(),
            custody_contract: self.custody_contract.clone(),
        }
    }
}

/// The custody contracts on record, by collateral token. A later record for a collateral
/// takes the place of an earlier one.
#[derive(Debug, Clone, PartialEq, Eq)]
pub struct CollateralRegistry {
    entries: Vec<(Addr, CollateralInfo)>,
}

/// The records that a list stands for, the first entry for a collateral counting.
pub open spec fn records_of(entries: Seq<(Seq<char>, CollateralInfoView)>) -> Map<
    Seq<char>,
    CollateralInfoView,
>
    decreases entries.len(),
{
    if entries.len() == 0 {
        Map::empty()
    } else {
        records_of(entries.drop_first()).insert(entries[0].0, entries[0].1)
    }
}

impl View for CollateralRegistry {
    type V = Map<Seq<char>, CollateralInfoView>;

    closed spec fn view(&self) -> Map<Seq<char>, CollateralInfoView> {
        records_of(self.entries.deep_view())
    }
}

/// Model of the error for a collateral without a record.
pub open spec fn not_whitelisted_view() -> StdErrorView {
    generic_err_view("Collateral is not whitelisted"@)
}

/// Model of [`read_collateral_info`].
pub open spec fn read_collateral_info_view(
    records: Map<Seq<char>, CollateralInfoView>,
    collateral_token: Seq<char>,
) -> Result<CollateralInfoView, StdErrorView> {
    if records.contains_key(collateral_token) {
        Ok(records[collateral_token])
    } else {
        Err(not_whitelisted_view())
    }
}

impl CollateralRegistry {
    /// The registry without records.
    pub fn new() -> (r: CollateralRegistry)
        ensures
            r@ == Map::<Seq<char>, CollateralInfoView>::empty(),
    {
        let r = CollateralRegistry { entries: Vec::new() };
        assert(r.entries.deep_view() =~= Seq::empty());
        r
    }
}

/// Records `collateral_info` under `collateral_token`.
pub fn store_collateral_info(
    storage: &mut CollateralRegistry,
    collateral_token: &Addr,
    collateral_info: &CollateralInfo,
) -> (r: StdResult<()>)
    ensures
        r is Ok,
        final(storage)@ == old(storage)@.insert(collateral_token@, collateral_info.deep_view()),
{
    let ghost before = storage.entries.deep_view();
    storage.entries.insert(0, (collateral_token.clone(), collateral_info.clone()));
    proof {
        let after = storage.entries.deep_view();
        assert(after[0] == (collateral_token@, collateral_info.deep_view()));
        assert(after.drop_first() =~= before);
    }
    Ok(())
}

/// The record of `collateral_token`; an error where the collateral has none.
pub fn read_collateral_info(storage: &CollateralRegistry, collateral_token: &Addr) -> (r: StdResult<
    CollateralInfo,
>)
    ensures
        result_view(r) == read_collateral_info_view(storage@, collateral_token@),
{
    let ghost all = storage.entries.deep_view();
    let mut i: usize = 0;
    assert(all.skip(0) =~= all);
    while i < storage.entries.len()
        invariant
            i <= storage.entries.len(),
            all == storage.entries.deep_view(),
            all.len() == storage.entries.len(),
            read_collateral_info_view(records_of(all), collateral_token@)
                == read_collateral_info_view(records_of(all.skip(i as int)), collateral_token@),
        decreases storage.entries.len() - i,
    {
        let entry: &(Addr, CollateralInfo) = &storage.entries[i];
        assert(all.skip(i as int)[0] == entry.deep_view());
        assert(all.skip(i as int).drop_first() =~= all.skip(i + 1));
        if entry.0 == *collateral_token {
            return Ok(entry.1.clone());
        }
        i += 1;
    }
    assert(all.skip(i as int).len() == 0);
    Err(StdError::generic_err("Collateral is not whitelisted"))
}

} // verus!
