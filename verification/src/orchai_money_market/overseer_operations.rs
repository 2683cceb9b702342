//! Operations on collateral: provide and lock, unlock and withdraw.

use crate::composer::{call, call_view, no_funds, push_msg, token_send, token_send_view};
use crate::gateway::{StateQueryView, Step, StepView};
use crate::hop::{inject_hop, with_hop_view};
use crate::orchai::custody::{CustodyExecuteMsg, CustodyExecuteMsgView};
use crate::orchai::overseer::{OverseerExecuteMsg, OverseerExecuteMsgView};
use crate::orchai::querier::{query_custody_borrower, query_token_balance};
use crate::orchai::tokens::TokensHuman;
use crate::orchai_money_market::state::{
    CollateralInfoView,
    CollateralRegistry,
    Config,
    ConfigView,
    read_collateral_info,
    read_collateral_info_view,
};
use crate::payload::{ProtocolMsg, ProtocolMsgView};
use crate::resolver::{Quantity, QuantityView, quantity, quantity_view};
use crate::types::{
    Addr,
    CosmosMsg,
    CosmosMsgView,
    Env,
    StdErrorView,
    StdResult,
    Uint128,
    result_view,
};
use crate::uint256::Uint256;
use vstd::prelude::*;

verus! {

/// Model of the list that names one collateral with its amount.
pub open spec fn one_collateral_view(collateral: Seq<char>, amount: u128) -> Seq<
    (Seq<char>, Uint256),
> {
    seq![(collateral, Uint256::of(amount))]
}

/// The list that names one collateral with its amount.
pub fn one_collateral(collateral: String, amount: Uint128) -> (r: TokensHuman)
    ensures
        r.deep_view() == one_collateral_view(collateral@, amount),
{
    let mut r: TokensHuman = Vec::new();
    r.push((collateral, Uint256::from_u128(amount)));
    assert(r.deep_view() =~= one_collateral_view(collateral@, amount));
    r
}

/// Model of the primary actions of providing collateral: the deposit at the custody contract,
/// then the lock at the overseer.
pub open spec fn provide_and_lock_actions_view(
    config: ConfigView,
    custody_contract: Seq<char>,
    collateral: Seq<char>,
    amount: u128,
) -> Seq<CosmosMsgView> {
    seq![
        token_send_view(
            collateral,
            custody_contract,
            amount,
            ProtocolMsgView::Custody(CustodyExecuteMsgView::DepositCollateral {  }),
        ),
        call_view(
            config.overseer,
            ProtocolMsgView::Overseer(
                OverseerExecuteMsgView::LockCollateral {
                    collaterals: one_collateral_view(collateral, amount),
                },
            ),
            Seq::empty(),
        ),
    ]
}

/// Model of [`query_overseer_provide_and_lock_collateral_msg`].
pub open spec fn provide_and_lock_collateral_view(
    config: ConfigView,
    records: Map<Seq<char>, CollateralInfoView>,
    executor_addr: Seq<char>,
    sender: Seq<char>,
    collateral: Seq<char>,
    amount: Option<u128>,
) -> Result<StepView, StdErrorView> {
    match read_collateral_info_view(records, collateral) {
        Ok(info) => match amount {
            Some(amount) => Ok(
                StepView::Emit(
                    with_hop_view(
                        collateral,
                        sender,
                        executor_addr,
                        amount,
                        provide_and_lock_actions_view(
                            config,
                            info.custody_contract,
                            collateral,
                            amount,
                        ),
                    ),
                ),
            ),
            None => Ok(StepView::Ask(StateQueryView::TokenBalance { token: collateral, account: sender })),
        },
        Err(e) => Err(e),
    }
}

/// Provides collateral of `sender` and locks it: the hop to the executor where the two
/// differ, the deposit at the custody contract on record, the lock at the overseer. Fails
/// where the collateral has no record. Without an amount the sender's whole balance of the
/// collateral is meant, and the question for it comes back.
pub fn query_overseer_provide_and_lock_collateral_msg(
    config: &Config,
    storage: &CollateralRegistry,
    _env: Env,
    executor_addr: Addr,
    sender: Addr,
    collateral: Addr,
    amount: Option<Uint128>,
) -> (r: StdResult<Step>)
    ensures
        result_view(r) == provide_and_lock_collateral_view(
            config.deep_view(),
            storage@,
            executor_addr@,
            sender@,
            collateral@,
            amount,
        ),
{
    let collateral_info = read_collateral_info(storage, &collateral)?;
    let amount = match amount {
        Some(amount) => amount,
        None => {
            return Ok(Step::Ask(query_token_balance(collateral, sender)));
        },
    };
    let mut messages = inject_hop(&collateral, &sender, &executor_addr, amount);
    push_msg(
        &mut messages,
        token_send(
            collateral.clone(),
            collateral_info.custody_contract,
            amount,
            ProtocolMsg::Custody(CustodyExecuteMsg::DepositCollateral {  }),
        ),
    );
    push_msg(
        &mut messages,
        call(
            config.overseer.clone(),
            ProtocolMsg::Overseer(
                OverseerExecuteMsg::LockCollateral { collaterals: one_collateral(collateral, amount) },
            ),
            no_funds(),
        ),
    );
    assert(messages.deep_view() =~= with_hop_view(
        collateral@,
        sender@,
        executor_addr@,
        amount,
        provide_and_lock_actions_view(
            config.deep_view(),
            collateral_info.custody_contract@,
            collateral@,
            amount,
        ),
    ));
    Ok(Step::Emit(messages))
}

/// Model of the messages of withdrawing collateral: the unlock at the overseer, then the
/// withdrawal at the custody contract.
pub open spec fn unlock_and_withdraw_actions_view(
    config: ConfigView,
    custody_contract: Seq<char>,
    collateral: Seq<char>,
    amount: u128,
) -> Seq<CosmosMsgView> {
    seq![
        call_view(
            config.overseer,
            ProtocolMsgView::Overseer(
                OverseerExecuteMsgView::UnlockCollateral {
                    collaterals: one_collateral_view(collateral, amount),
                },
            ),
            Seq::empty(),
        ),
        call_view(
            custody_contract,
            ProtocolMsgView::Custody(
                CustodyExecuteMsgView::WithdrawCollateral { amount: Some(Uint256::of(amount)) },
            ),
            Seq::empty(),
        ),
    ]
}

/// Model of [`query_overseer_unlock_and_withdraw_collateral_msg`].
pub open spec fn unlock_and_withdraw_collateral_view(
    config: ConfigView,
    records: Map<Seq<char>, CollateralInfoView>,
    sender: Option<Seq<char>>,
    collateral: Seq<char>,
    amount: Option<u128>,
) -> Result<StepView, StdErrorView> {
    match quantity_view(sender, amount) {
        Ok(quantity) => match read_collateral_info_view(records, collateral) {
            Ok(info) => match quantity {
                QuantityView::Given(amount) => Ok(
                    StepView::Emit(
                        unlock_and_withdraw_actions_view(
                            config,
                            info.custody_contract,
                            collateral,
                            amount,
                        ),
                    ),
                ),
                QuantityView::AllOf(sender) => Ok(
                    StepView::Ask(
                        StateQueryView::CustodyBorrower {
                            custody: info.custody_contract,
                            borrower: sender,
                        },
                    ),
                ),
            },
            Err(e) => Err(e),
        },
        Err(e) => Err(e),
    }
}

/// Unlocks collateral and withdraws it: the unlock at the overseer, then the withdrawal at the
/// custody contract on record. Refused without amount and sender; fails where the collateral
/// has no record. Without an amount all of the sender's locked collateral is meant, and the
/// question for the sender's position comes back.
pub fn query_overseer_unlock_and_withdraw_collateral_msg(
    config: &Config,
    storage: &CollateralRegistry,
    _env: Env,
    sender: Option<Addr>,
    collateral: Addr,
    amount: Option<Uint128>,
) -> (r: StdResult<Step>)
    ensures
        result_view(r) == unlock_and_withdraw_collateral_view(
            config.deep_view(),
            storage@,
            sender.deep_view(),
            collateral@,
            amount,
        ),
{
    let quantity = quantity(sender, amount)?;
    let collateral_info = read_collateral_info(storage, &collateral)?;
    let amount = match quantity {
        Quantity::Given(amount) => amount,
        Quantity::AllOf(sender) => {
            return Ok(
                Step::Ask(query_custody_borrower(collateral_info.custody_contract, sender)),
            );
        },
    };
    let mut messages: Vec<CosmosMsg> = Vec::new();
    assert(messages.deep_view() =~= Seq::<CosmosMsgView>::empty());
    push_msg(
        &mut messages,
        call(
            config.overseer.clone(),
            ProtocolMsg::Overseer(
                OverseerExecuteMsg::UnlockCollateral {
                    collaterals: one_collateral(collateral, amount),
                },
            ),
            no_funds(),
        ),
    );
    push_msg(
        &mut messages,
        call(
            collateral_info.custody_contract,
            ProtocolMsg::Custody(
                CustodyExecuteMsg::WithdrawCollateral { amount: Some(Uint256::from_u128(amount)) },
            ),
            no_funds(),
        ),
    );
    assert(messages.deep_view() =~= unlock_and_withdraw_actions_view(
        config.deep_view(),
        collateral_info.custody_contract@,
        collateral@,
        amount,
    ));
    Ok(Step::Emit(messages))
}

} // verus!
