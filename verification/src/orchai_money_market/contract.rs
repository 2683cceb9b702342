//! Entry points of the money market adapter.

use crate::composer::token_send_view;
use crate::decoder::first_accepting;
use crate::gateway::{
    StateAnswer,
    StateAnswerView,
    StateQuery,
    StateQueryView,
    Step,
    StepView,
    answer_amount,
    answer_amount_view,
    asked_view,
    emit,
    emit_view,
    finished,
    finished_view,
    unasked,
    unasked_view,
};
use crate::hop::with_hop_view;
use crate::orchai::liquidation::LiquidationExecuteMsgView;
use crate::orchai::market::MarketExecuteMsgView;
use crate::orchai::querier::{query_custody_borrower, query_token_balance};
use crate::orchai_money_market::custody_operations::{
    custody_claim_rewards_view,
    query_custody_claim_rewards_msgs,
};
use crate::orchai_money_market::liquidation_operations::{
    liquidation_call_view,
    query_liquidation_activate_bids_msg,
    query_liquidation_claim_lending_rewards_msg,
    query_liquidation_claim_liquidations_msg,
    query_liquidation_retract_bid_msg,
    query_liquidation_submit_bid_msg,
    submit_bid_view,
};
use crate::orchai_money_market::market_operations::{
    borrow_stable_view,
    claim_borrower_rewards_view,
    claim_lender_rewards_view,
    deposit_stable_view,
    query_market_borrow_stable_msgs,
    query_market_claim_borrower_rewards_msgs,
    query_market_claim_lender_rewards_msgs,
    query_market_deposit_stable_msgs,
    query_market_redeem_stable_msgs,
    query_market_repay_stable_for_msgs,
    query_market_repay_stable_msgs,
    redeem_stable_view,
    repay_stable_for_view,
    repay_stable_view,
};
use crate::orchai_money_market::msg::{
    Candidates,
    CandidatesView,
    CollateralInfoResponse,
    CollateralInfoResponseView,
    ConfigResponse,
    ConfigResponseView,
    CustodyOperations,
    CustodyOperationsView,
    ExecuteMsg,
    ExecuteMsgView,
    InstantiateMsg,
    InstantiateMsgView,
    LiquidationOperations,
    LiquidationOperationsView,
    MarketOperations,
    MarketOperationsView,
    MigrateMsg,
    Operation,
    OperationView,
    OverseerOperations,
    OverseerOperationsView,
    QueryMsg,
    QueryMsgView,
    QueryResponse,
    QueryResponseView,
};
use crate::orchai_money_market::overseer_operations::{
    provide_and_lock_collateral_view,
    query_overseer_provide_and_lock_collateral_msg,
    query_overseer_unlock_and_withdraw_collateral_msg,
    unlock_and_withdraw_collateral_view,
};
use crate::orchai_money_market::state::{
    CollateralInfo,
    CollateralInfoView,
    CollateralRegistry,
    Config,
    ConfigView,
    read_collateral_info,
    read_collateral_info_view,
    store_collateral_info,
};
use crate::payload::ProtocolMsgView;
use crate::resolver::{asked_party, underspecified_view};
use crate::types::{
    Addr,
    ContractError,
    ContractErrorView,
    CosmosMsg,
    CosmosMsgView,
    Env,
    MessageInfo,
    Response,
    ResponseView,
    StdError,
    StdErrorView,
    StdResult,
    action_response_view,
    empty_response_view,
    not_found_view,
    overridden,
    result_view,
};
use vstd::prelude::*;

verus! {

/// Model of the configuration that an adapter starts with.
pub open spec fn initial_config_view(msg: InstantiateMsgView) -> ConfigView {
    ConfigView {
        owner: msg.owner,
        overseer: msg.overseer,
        market: msg.market,
        liquidation: msg.liquidation,
        stable_addr: msg.stable_addr,
        a_stable_contract: msg.a_stable_contract,
        a_stable_contract_reward: msg.a_stable_contract_reward,
    }
}

/// Sets the adapter up: the configuration to keep, and an empty response.
pub fn instantiate(_env: Env, _info: MessageInfo, msg: InstantiateMsg) -> (r: Result<
    (Config, Response),
    ContractError,
>)
    ensures
        result_view(r) == Ok::<(ConfigView, ResponseView), ContractErrorView>(
            (initial_config_view(msg.deep_view()), empty_response_view()),
        ),
{
    let config = Config {
        owner: msg.owner,
        overseer: msg.overseer,
        market: msg.market,
        liquidation: msg.liquidation,
        stable_addr: msg.stable_addr,
        a_stable_contract: msg.a_stable_contract,
        a_stable_contract_reward: msg.a_stable_contract_reward,
    };
    Ok((config, Response::default()))
}

/// Model of the configuration after an update.
pub open spec fn updated_config_view(
    config: ConfigView,
    owner: Option<Seq<char>>,
    overseer: Option<Seq<char>>,
    market: Option<Seq<char>>,
    liquidation: Option<Seq<char>>,
    stable_addr: Option<Seq<char>>,
    a_stable_contract: Option<Seq<char>>,
    a_stable_contract_reward: Option<Seq<char>>,
) -> ConfigView {
    ConfigView {
        owner: overridden(config.owner, owner),
        overseer: overridden(config.overseer, overseer),
        market: overridden(config.market, market),
        liquidation: overridden(config.liquidation, liquidation),
        stable_addr: overridden(config.stable_addr, stable_addr),
        a_stable_contract: overridden(config.a_stable_contract, a_stable_contract),
        a_stable_contract_reward: overridden(
            config.a_stable_contract_reward,
            a_stable_contract_reward,
        ),
    }
}

/// Overrides the fields of the configuration that are given. Only the owner may: for any
/// other caller the configuration stays as it was.
pub fn execute_update_config(
    config: &mut Config,
    _env: Env,
    info: MessageInfo,
    owner: Option<Addr>,
    overseer: Option<Addr>,
    market: Option<Addr>,
    liquidation: Option<Addr>,
    stable_addr: Option<Addr>,
    a_stable_contract: Option<Addr>,
    a_stable_contract_reward: Option<Addr>,
) -> (r: Result<Response, ContractError>)
    ensures
        info.sender@ != old(config).owner@ ==> {
            &&& result_view(r) == Err::<ResponseView, ContractErrorView>(
                ContractErrorView::Unauthorized {  },
            )
            &&& final(config).deep_view() == old(config).deep_view()
        },
        info.sender@ == old(config).owner@ ==> {
            &&& result_view(r) == Ok::<ResponseView, ContractErrorView>(
                action_response_view("update_config"@),
            )
            &&& final(config).deep_view() == updated_config_view(
                old(config).deep_view(),
                owner.deep_view(),
                overseer.deep_view(),
                market.deep_view(),
                liquidation.deep_view(),
                stable_addr.deep_view(),
                a_stable_contract.deep_view(),
                a_stable_contract_reward.deep_view(),
            )
        },
{
    if config.owner != info.sender {
        return Err(ContractError::Unauthorized {  });
    }
    if let Some(owner) = owner {
        config.owner = owner;
    }
    if let Some(overseer) = overseer {
        config.overseer = overseer;
    }
    if let Some(market) = market {
        config.market = market;
    }
    if let Some(liquidation) = liquidation {
        config.liquidation = liquidation;
    }
    if let Some(stable_addr) = stable_addr {
        config.stable_addr = stable_addr;
    }
    if let Some(a_stable_contract) = a_stable_contract {
        config.a_stable_contract = a_stable_contract;
    }
    if let Some(a_stable_contract_reward) = a_stable_contract_reward {
        config.a_stable_contract_reward = a_stable_contract_reward;
    }
    Ok(Response::action("update_config"))
}

/// Records the custody contract of a collateral. Only the owner may: for any other caller the
/// records stay as they were.
pub fn execute_register_collateral(
    config: &Config,
    storage: &mut CollateralRegistry,
    _env: Env,
    info: MessageInfo,
    collateral: Addr,
    custody_contract: Addr,
) -> (r: Result<Response, ContractError>)
    ensures
        info.sender@ != config.owner@ ==> {
            &&& result_view(r) == Err::<ResponseView, ContractErrorView>(
                ContractErrorView::Unauthorized {  },
            )
            &&& final(storage)@ == old(storage)@
        },
        info.sender@ == config.owner@ ==> {
            &&& result_view(r) == Ok::<ResponseView, ContractErrorView>(
                action_response_view("register_collateral"@),
            )
            &&& final(storage)@ == old(storage)@.insert(
                collateral@,
                CollateralInfoView { collateral: collateral@, custody_contract: custody_contract@ },
            )
        },
{
    if config.owner != info.sender {
        return Err(ContractError::Unauthorized {  });
    }
    let collateral_info = CollateralInfo { collateral: collateral.clone(), custody_contract };
    match store_collateral_info(storage, &collateral, &collateral_info) {
        Ok(()) => Ok(Response::action("register_collateral")),
        Err(e) => Err(ContractError::Std(e)),
    }
}

/// Model of the configuration after a state-changing call of the owner.
pub open spec fn executed_config_view(config: ConfigView, msg: ExecuteMsgView) -> ConfigView {
    match msg {
        ExecuteMsgView::UpdateConfig {
            owner,
            overseer,
            market,
            liquidation,
            stable_addr,
            a_stable_contract,
            a_stable_contract_reward,
        } => updated_config_view(
            config,
            owner,
            overseer,
            market,
            liquidation,
            stable_addr,
            a_stable_contract,
            a_stable_contract_reward,
        ),
        ExecuteMsgView::RegisterCollateral { .. } => config,
    }
}

/// Model of the records after a state-changing call of the owner.
pub open spec fn executed_records_view(
    records: Map<Seq<char>, CollateralInfoView>,
    msg: ExecuteMsgView,
) -> Map<Seq<char>, CollateralInfoView> {
    match msg {
        ExecuteMsgView::UpdateConfig { .. } => records,
        ExecuteMsgView::RegisterCollateral { collateral, custody_contract } => records.insert(
            collateral,
            CollateralInfoView { collateral, custody_contract },
        ),
    }
}

/// Model of the action that a state-changing call logs.
pub open spec fn executed_action_view(msg: ExecuteMsgView) -> Seq<char> {
    match msg {
        ExecuteMsgView::UpdateConfig { .. } => "update_config"@,
        ExecuteMsgView::RegisterCollateral { .. } => "register_collateral"@,
    }
}

/// Runs a state-changing call. Only the owner may: for any other caller the configuration and
/// the records stay as they were.
pub fn execute(
    config: &mut Config,
    storage: &mut CollateralRegistry,
    env: Env,
    info: MessageInfo,
    msg: ExecuteMsg,
) -> (r: Result<Response, ContractError>)
    ensures
        info.sender@ != old(config).owner@ ==> {
            &&& result_view(r) == Err::<ResponseView, ContractErrorView>(
                ContractErrorView::Unauthorized {  },
            )
            &&& final(config).deep_view() == old(config).deep_view()
            &&& final(storage)@ == old(storage)@
        },
        info.sender@ == old(config).owner@ ==> {
            &&& result_view(r) == Ok::<ResponseView, ContractErrorView>(
                action_response_view(executed_action_view(msg.deep_view())),
            )
            &&& final(config).deep_view() == executed_config_view(
                old(config).deep_view(),
                msg.deep_view(),
            )
            &&& final(storage)@ == executed_records_view(old(storage)@, msg.deep_view())
        },
{
    match msg {
        ExecuteMsg::UpdateConfig {
            owner,
            overseer,
            market,
            liquidation,
            stable_addr,
            a_stable_contract,
            a_stable_contract_reward,
        } => execute_update_config(
            config,
            env,
            info,
            owner,
            overseer,
            market,
            liquidation,
            stable_addr,
            a_stable_contract,
            a_stable_contract_reward,
        ),
        ExecuteMsg::RegisterCollateral { collateral, custody_contract } => {
            execute_register_collateral(config, storage, env, info, collateral, custody_contract)
        },
    }
}

/// Model of [`query_config`].
pub open spec fn config_response_view(config: ConfigView) -> ConfigResponseView {
    ConfigResponseView {
        owner: config.owner,
        overseer: config.overseer,
        market: config.market,
        liquidation: config.liquidation,
        stable_addr: config.stable_addr,
        a_stable_contract: config.a_stable_contract,
        a_stable_contract_reward: config.a_stable_contract_reward,
    }
}

/// The configuration, as it is read out.
pub fn query_config(config: &Config, _env: Env) -> (r: StdResult<ConfigResponse>)
    ensures
        result_view(r) == Ok::<ConfigResponseView, StdErrorView>(
            config_response_view(config.deep_view()),
        ),
{
    Ok(
        ConfigResponse {
            owner: config.owner.clone(),
            overseer: config.overseer.clone(),
            market: config.market.clone(),
            liquidation: config.liquidation.clone(),
            stable_addr: config.stable_addr.clone(),
            a_stable_contract: config.a_stable_contract.clone(),
            a_stable_contract_reward: config.a_stable_contract_reward.clone(),
        },
    )
}

/// Model of [`query_collateral_info`].
pub open spec fn collateral_info_response_view(
    records: Map<Seq<char>, CollateralInfoView>,
    collateral: Seq<char>,
) -> Result<CollateralInfoResponseView, StdErrorView> {
    match read_collateral_info_view(records, collateral) {
        Ok(info) => Ok(
            CollateralInfoResponseView {
                collateral: info.collateral,
                custody_contract: info.custody_contract,
            },
        ),
        Err(e) => Err(e),
    }
}

/// The record of a collateral, as it is read out; an error where the collateral has none.
pub fn query_collateral_info(storage: &CollateralRegistry, _env: Env, collateral: Addr) -> (r:
    StdResult<CollateralInfoResponse>)
    ensures
        result_view(r) == collateral_info_response_view(storage@, collateral@),
{
    let collateral_info = read_collateral_info(storage, &collateral)?;
    Ok(
        CollateralInfoResponse {
            collateral: collateral_info.collateral,
            custody_contract: collateral_info.custody_contract,
        },
    )
}

/// Model of the error for a payload that no schema of the adapter accepts.
pub open spec fn operations_not_found_view() -> StdErrorView {
    not_found_view("Operations not found"@)
}

/// Model of [`decode`]: the schemas in their order are market, custody, liquidation, overseer,
/// and the first that parsed the payload gives the operation.
pub open spec fn decode_view(candidates: CandidatesView) -> Result<OperationView, StdErrorView> {
    if candidates.market is Some {
        Ok(OperationView::Market(candidates.market->0))
    } else if candidates.custody is Some {
        Ok(OperationView::Custody(candidates.custody->0))
    } else if candidates.liquidation is Some {
        Ok(OperationView::Liquidation(candidates.liquidation->0))
    } else if candidates.overseer is Some {
        Ok(OperationView::Overseer(candidates.overseer->0))
    } else {
        Err(operations_not_found_view())
    }
}

/// The operation that a payload stands for: that of the first schema, in the adapter's order,
/// that parsed it. Fails where none did.
pub fn decode(candidates: Candidates) -> (r: StdResult<Operation>)
    ensures
        result_view(r) == decode_view(candidates.deep_view()),
{
    let mut accepted: Vec<bool> = Vec::new();
    accepted.push(candidates.market.is_some());
    accepted.push(candidates.custody.is_some());
    accepted.push(candidates.liquidation.is_some());
    accepted.push(candidates.overseer.is_some());
    assert(accepted@ =~= seq![
        candidates.market is Some,
        candidates.custody is Some,
        candidates.liquidation is Some,
        candidates.overseer is Some,
    ]);
    let first = first_accepting(&accepted);
    let Candidates { market, custody, liquidation, overseer } = candidates;
    match (first, market, custody, liquidation, overseer) {
        (Some(0), Some(op), _, _, _) => Ok(Operation::Market(op)),
        (Some(1), _, Some(op), _, _) => Ok(Operation::Custody(op)),
        (Some(2), _, _, Some(op), _) => Ok(Operation::Liquidation(op)),
        (Some(3), _, _, _, Some(op)) => Ok(Operation::Overseer(op)),
        _ => Err(StdError::not_found("Operations not found")),
    }
}

/// A payload that an earlier schema parses is never read under a later one: what parses as a
/// market operation is one, whatever else parses it; what parses as a custody operation and
/// not as a market operation is one; and so on down the order.
pub proof fn lemma_schema_priority(candidates: CandidatesView)
    ensures
        candidates.market is Some ==> decode_view(candidates) == Ok::<OperationView, StdErrorView>(
            OperationView::Market(candidates.market->0),
        ),
        candidates.market is None && candidates.custody is Some ==> decode_view(candidates) == Ok::<
            OperationView,
            StdErrorView,
        >(OperationView::Custody(candidates.custody->0)),
        candidates.market is None && candidates.custody is None && candidates.liquidation is Some
            ==> decode_view(candidates) == Ok::<OperationView, StdErrorView>(
            OperationView::Liquidation(candidates.liquidation->0),
        ),
        decode_view(candidates) is Err <==> candidates.market is None && candidates.custody is None
            && candidates.liquidation is None && candidates.overseer is None,
{
}

/// Model of [`compile`].
pub open spec fn compile_view(
    config: ConfigView,
    records: Map<Seq<char>, CollateralInfoView>,
    operation: OperationView,
) -> Result<StepView, StdErrorView> {
    match operation {
        OperationView::Market(op) => match op {
            MarketOperationsView::BorrowStable { borrow_amount, to } => Ok(
                StepView::Emit(borrow_stable_view(config, borrow_amount, to)),
            ),
            MarketOperationsView::DepositStable { executor_addr, sender, stable_amount } => Ok(
                deposit_stable_view(config, executor_addr, sender, stable_amount),
            ),
            MarketOperationsView::RedeemStable { executor_addr, sender, a_stable_amount } => Ok(
                redeem_stable_view(config, executor_addr, sender, a_stable_amount),
            ),
            MarketOperationsView::RepayStable { amount, executor_addr, sender } => Ok(
                StepView::Emit(repay_stable_view(config, amount, executor_addr, sender)),
            ),
            MarketOperationsView::RepayStableFor { amount, borrower } => Ok(
                StepView::Emit(repay_stable_for_view(config, amount, borrower)),
            ),
            MarketOperationsView::ClaimBorrowerRewards { to } => Ok(
                StepView::Emit(claim_borrower_rewards_view(config, to)),
            ),
            MarketOperationsView::ClaimLenderRewards { to } => Ok(
                StepView::Emit(claim_lender_rewards_view(config, to)),
            ),
        },
        OperationView::Custody(op) => match op {
            CustodyOperationsView::ClaimRewards { collateral, recipient } => emit_view(
                custody_claim_rewards_view(records, collateral, recipient),
            ),
        },
        OperationView::Liquidation(op) => match op {
            LiquidationOperationsView::SubmitBid {
                sender,
                amount,
                collateral_token,
                premium_slot,
            } => submit_bid_view(config, sender, amount, collateral_token, premium_slot),
            LiquidationOperationsView::RetractBid { bid_idx, amount } => Ok(
                StepView::Emit(
                    liquidation_call_view(
                        config,
                        LiquidationExecuteMsgView::RetractBid { bid_idx, amount },
                    ),
                ),
            ),
            LiquidationOperationsView::ActivateBids { collateral_token, bids_idx } => Ok(
                StepView::Emit(
                    liquidation_call_view(
                        config,
                        LiquidationExecuteMsgView::ActivateBids { collateral_token, bids_idx },
                    ),
                ),
            ),
            LiquidationOperationsView::ClaimLiquidations { collateral_token, bids_idx } => Ok(
                StepView::Emit(
                    liquidation_call_view(
                        config,
                        LiquidationExecuteMsgView::ClaimLiquidations { collateral_token, bids_idx },
                    ),
                ),
            ),
            LiquidationOperationsView::ClaimLendingRewards { collateral_token, bids_idx } => Ok(
                StepView::Emit(
                    liquidation_call_view(
                        config,
                        LiquidationExecuteMsgView::ClaimLendingRewards {
                            collateral_token,
                            bids_idx,
                        },
                    ),
                ),
            ),
        },
        OperationView::Overseer(op) => match op {
            OverseerOperationsView::ProvideAndLockCollateral {
                executor_addr,
                sender,
                collateral,
                amount,
            } => provide_and_lock_collateral_view(
                config,
                records,
                executor_addr,
                sender,
                collateral,
                amount,
            ),
            OverseerOperationsView::UnlockAndWithdrawCollateral { sender, collateral, amount } => {
                unlock_and_withdraw_collateral_view(config, records, sender, collateral, amount)
            },
        },
    }
}

/// Compiles a decoded operation: to its messages, or to the question whose answer fills its
/// open amount.
pub fn compile(config: &Config, storage: &CollateralRegistry, env: Env, operation: Operation) -> (r:
    StdResult<Step>)
    ensures
        result_view(r) == compile_view(config.deep_view(), storage@, operation.deep_view()),
{
    match operation {
        Operation::Market(op) => match op {
            MarketOperations::BorrowStable { borrow_amount, to } => emit(
                query_market_borrow_stable_msgs(config, env, borrow_amount, to),
            ),
            MarketOperations::DepositStable { executor_addr, sender, stable_amount } => {
                query_market_deposit_stable_msgs(config, env, executor_addr, sender, stable_amount)
            },
            MarketOperations::RedeemStable { executor_addr, sender, a_stable_amount } => {
                query_market_redeem_stable_msgs(config, env, executor_addr, sender, a_stable_amount)
            },
            MarketOperations::RepayStable { amount, executor_addr, sender } => emit(
                query_market_repay_stable_msgs(config, env, amount, executor_addr, sender),
            ),
            MarketOperations::RepayStableFor { amount, borrower } => emit(
                query_market_repay_stable_for_msgs(config, env, amount, borrower),
            ),
            MarketOperations::ClaimBorrowerRewards { to } => emit(
                query_market_claim_borrower_rewards_msgs(config, env, to),
            ),
            MarketOperations::ClaimLenderRewards { to } => emit(
                query_market_claim_lender_rewards_msgs(config, env, to),
            ),
        },
        Operation::Custody(op) => match op {
            CustodyOperations::ClaimRewards { collateral, recipient } => emit(
                query_custody_claim_rewards_msgs(storage, env, collateral, recipient),
            ),
        },
        Operation::Liquidation(op) => match op {
            LiquidationOperations::SubmitBid { sender, amount, collateral_token, premium_slot } => {
                query_liquidation_submit_bid_msg(
                    config,
                    env,
                    sender,
                    amount,
                    collateral_token,
                    premium_slot,
                )
            },
            LiquidationOperations::RetractBid { bid_idx, amount } => emit(
                query_liquidation_retract_bid_msg(config, env, bid_idx, amount),
            ),
            LiquidationOperations::ActivateBids { collateral_token, bids_idx } => emit(
                query_liquidation_activate_bids_msg(config, env, collateral_token, bids_idx),
            ),
            LiquidationOperations::ClaimLiquidations { collateral_token, bids_idx } => emit(
                query_liquidation_claim_liquidations_msg(config, env, collateral_token, bids_idx),
            ),
            LiquidationOperations::ClaimLendingRewards { collateral_token, bids_idx } => emit(
                query_liquidation_claim_lending_rewards_msg(config, env, collateral_token, bids_idx),
            ),
        },
        Operation::Overseer(op) => match op {
            OverseerOperations::ProvideAndLockCollateral {
                executor_addr,
                sender,
                collateral,
                amount,
            } => query_overseer_provide_and_lock_collateral_msg(
                config,
                storage,
                env,
                executor_addr,
                sender,
                collateral,
                amount,
            ),
            OverseerOperations::UnlockAndWithdrawCollateral { sender, collateral, amount } => {
                query_overseer_unlock_and_withdraw_collateral_msg(
                    config,
                    storage,
                    env,
                    sender,
                    collateral,
                    amount,
                )
            },
        },
    }
}

/// Model of [`query`].
pub open spec fn query_view(
    config: ConfigView,
    records: Map<Seq<char>, CollateralInfoView>,
    msg: QueryMsgView,
) -> Result<QueryResponseView, StdErrorView> {
    match msg {
        QueryMsgView::Config {  } => Ok(QueryResponseView::Config(config_response_view(config))),
        QueryMsgView::CollateralInfo { collateral } => match collateral_info_response_view(
            records,
            collateral,
        ) {
            Ok(response) => Ok(QueryResponseView::CollateralInfo(response)),
            Err(e) => Err(e),
        },
        QueryMsgView::Messages { msg } => match decode_view(msg) {
            Ok(operation) => match compile_view(config, records, operation) {
                Ok(step) => Ok(QueryResponseView::Messages(step)),
                Err(e) => Err(e),
            },
            Err(e) => Err(e),
        },
    }
}

/// Answers a read-only call. A payload is decoded under the first schema that parsed it and
/// compiled; where no schema parsed it, the call fails.
pub fn query(config: &Config, storage: &CollateralRegistry, env: Env, msg: QueryMsg) -> (r:
    StdResult<QueryResponse>)
    ensures
        result_view(r) == query_view(config.deep_view(), storage@, msg.deep_view()),
{
    match msg {
        QueryMsg::Config {  } => Ok(QueryResponse::Config(query_config(config, env)?)),
        QueryMsg::CollateralInfo { collateral } => Ok(
            QueryResponse::CollateralInfo(query_collateral_info(storage, env, collateral)?),
        ),
        QueryMsg::Messages { msg } => {
            let operation = decode(msg)?;
            Ok(QueryResponse::Messages(compile(config, storage, env, operation)?))
        },
    }
}

/// Migration changes no state.
pub fn migrate(_env: Env, _msg: MigrateMsg) -> (r: StdResult<Response>)
    ensures
        result_view(r) == Ok::<ResponseView, StdErrorView>(empty_response_view()),
{
    Ok(Response::default())
}

/// An operation that was compiled to messages has at least one.
pub proof fn lemma_messages_never_empty(
    config: ConfigView,
    records: Map<Seq<char>, CollateralInfoView>,
    operation: OperationView,
)
    ensures
        match compile_view(config, records, operation) {
            Ok(StepView::Emit(messages)) => messages.len() >= 1,
            _ => true,
        },
{
}

/// Once the open amount of an operation is filled, no further question is asked: the
/// operation compiles to its messages or fails.
pub proof fn lemma_filled_operation_asks_nothing(
    config: ConfigView,
    records: Map<Seq<char>, CollateralInfoView>,
    operation: OperationView,
    amount: u128,
)
    ensures
        !(compile_view(config, records, operation.fill_amount(amount)) matches Ok(
            StepView::Ask(_),
        )),
{
}

/// The balance that the chain reports is the amount that the messages move: a deposit that
/// leaves its amount open asks for the sender's stable balance, and resumed with a balance it
/// compiles to the hop, where one is needed, and the send of exactly that balance.
pub proof fn lemma_deposit_moves_reported_balance(
    config: ConfigView,
    records: Map<Seq<char>, CollateralInfoView>,
    executor_addr: Seq<char>,
    sender: Seq<char>,
    balance: u128,
)
    ensures
        ({
            let deposit = OperationView::Market(
                MarketOperationsView::DepositStable { executor_addr, sender, stable_amount: None },
            );
            let question = StateQueryView::TokenBalance {
                token: config.stable_addr,
                account: sender,
            };
            &&& compile_view(config, records, deposit) == Ok::<StepView, StdErrorView>(
                StepView::Ask(question),
            )
            &&& resume_view(config, records, deposit, question, StateAnswerView::Balance(balance))
                == Ok::<Seq<CosmosMsgView>, StdErrorView>(
                with_hop_view(
                    config.stable_addr,
                    sender,
                    executor_addr,
                    balance,
                    seq![
                        token_send_view(
                            config.stable_addr,
                            config.market,
                            balance,
                            ProtocolMsgView::Market(MarketExecuteMsgView::DepositStable {  }),
                        ),
                    ],
                ),
            )
        }),
{
}

/// An operation that names neither its amount nor a sender is refused, whatever the records
/// hold: no question is asked and no message is built.
pub proof fn lemma_underspecified_operation_refused(
    config: ConfigView,
    records: Map<Seq<char>, CollateralInfoView>,
    collateral: Seq<char>,
    premium_slot: u8,
)
    ensures
        compile_view(
            config,
            records,
            OperationView::Liquidation(
                LiquidationOperationsView::SubmitBid {
                    sender: None,
                    amount: None,
                    collateral_token: collateral,
                    premium_slot,
                },
            ),
        ) == Err::<StepView, StdErrorView>(underspecified_view()),
        compile_view(
            config,
            records,
            OperationView::Overseer(
                OverseerOperationsView::UnlockAndWithdrawCollateral {
                    sender: None,
                    collateral,
                    amount: None,
                },
            ),
        ) == Err::<StepView, StdErrorView>(underspecified_view()),
{
}

/// Model of [`pending_question`].
pub open spec fn pending_question_view(config: ConfigView, records: Map<Seq<char>, CollateralInfoView>, operation: OperationView) -> Option<
    StateQueryView,
> {
    asked_view(compile_view(config, records, operation))
}

/// The question that an operation puts to the chain as it stands: that for the state which
/// fills its open amount, where the amount is open and nothing refuses the operation first.
pub fn pending_question(config: &Config, storage: &CollateralRegistry, operation: &Operation) -> (r: Option<StateQuery>)
    ensures
        r.deep_view() == pending_question_view(config.deep_view(), storage@, operation.deep_view()),
{
    match operation {
        Operation::Market(op) => match op {
            MarketOperations::DepositStable { sender, stable_amount, .. } => match stable_amount {
                Some(_) => None,
                None => Some(query_token_balance(config.stable_addr.clone(), sender.clone())),
            },
            MarketOperations::RedeemStable { sender, a_stable_amount, .. } => {
                match a_stable_amount {
                    Some(_) => None,
                    None => Some(
                        query_token_balance(config.a_stable_contract.clone(), sender.clone()),
                    ),
                }
            },
            _ => None,
        },
        Operation::Custody(_) => None,
        Operation::Liquidation(op) => match op {
            LiquidationOperations::SubmitBid { sender, amount, .. } => match asked_party(
                sender,
                amount,
            ) {
                Some(party) => Some(query_token_balance(config.stable_addr.clone(), party)),
                None => None,
            },
            _ => None,
        },
        Operation::Overseer(op) => match op {
            OverseerOperations::ProvideAndLockCollateral { sender, collateral, amount, .. } => {
                match read_collateral_info(storage, collateral) {
                    Ok(_) => match amount {
                        Some(_) => None,
                        None => Some(query_token_balance(collateral.clone(), sender.clone())),
                    },
                    Err(_) => None,
                }
            },
            OverseerOperations::UnlockAndWithdrawCollateral { sender, collateral, amount } => {
                match asked_party(sender, amount) {
                    Some(party) => match read_collateral_info(storage, collateral) {
                        Ok(info) => Some(query_custody_borrower(info.custody_contract, party)),
                        Err(_) => None,
                    },
                    None => None,
                }
            },
        },
    }
}

/// Model of [`resume`].
pub open spec fn resume_view(
    config: ConfigView,
    records: Map<Seq<char>, CollateralInfoView>,
    operation: OperationView,
    question: StateQueryView,
    answer: StateAnswerView,
) -> Result<Seq<CosmosMsgView>, StdErrorView> {
    if pending_question_view(config, records, operation) == Some(question) {
        match answer_amount_view(question, answer) {
            Ok(amount) => finished_view(compile_view(config, records, operation.fill_amount(amount))),
            Err(e) => Err(e),
        }
    } else {
        Err(unasked_view())
    }
}

/// Compiles an operation that asked `question`, now that the chain has answered: the amount
/// that the answer is worth fills the open amount of the operation, and the operation
/// compiles to its messages. Fails where `question` is not what the operation asks, and where
/// the answer is worth no amount.
pub fn resume(
    config: &Config,
    storage: &CollateralRegistry,
    env: Env,
    operation: Operation,
    question: &StateQuery,
    answer: &StateAnswer,
) -> (r: StdResult<Vec<CosmosMsg>>)
    ensures
        result_view(r) == resume_view(
            config.deep_view(),
            storage@,
            operation.deep_view(),
            question.deep_view(),
            answer.deep_view(),
        ),
{
    match pending_question(config, storage, &operation) {
        Some(asked) => {
            if !asked.same(question) {
                return Err(unasked());
            }
        },
        None => {
            return Err(unasked());
        },
    }
    let amount = answer_amount(question, answer)?;
    finished(compile(config, storage, env, operation.fill_amount(amount)))
}

/// An operation that is resumed with the answer to its own question never ends on a
/// question: it has the messages of the operation with its amount filled, or it fails as that
/// operation does. Resumed with any other question it fails.
pub proof fn lemma_resumed_operation_is_finished(
    config: ConfigView,
    records: Map<Seq<char>, CollateralInfoView>,
    operation: OperationView,
    question: StateQueryView,
    answer: StateAnswerView,
)
    ensures
        pending_question_view(config, records, operation) != Some(question) ==> resume_view(
            config, records,
            operation,
            question,
            answer,
        ) == Err::<Seq<CosmosMsgView>, StdErrorView>(unasked_view()),
        pending_question_view(config, records, operation) == Some(question) ==> (answer_amount_view(
            question,
            answer,
        ) matches Ok(amount) ==> match compile_view(config, records, operation.fill_amount(amount)) {
            Ok(StepView::Emit(messages)) => resume_view(config, records, operation, question, answer)
                == Ok::<Seq<CosmosMsgView>, StdErrorView>(messages),
            Ok(StepView::Ask(_)) => false,
            Err(e) => resume_view(config, records, operation, question, answer) == Err::<
                Seq<CosmosMsgView>,
                StdErrorView,
            >(e),
        }),
{
    if let Ok(amount) = answer_amount_view(question, answer) {
        lemma_filled_operation_asks_nothing(config, records, operation, amount);
    }
}

/// Model of [`referenced_collateral`].
pub open spec fn referenced_collateral_view(operation: OperationView) -> Option<Seq<char>> {
    match operation {
        OperationView::Custody(CustodyOperationsView::ClaimRewards { collateral, .. }) => Some(
            collateral,
        ),
        OperationView::Overseer(
            OverseerOperationsView::ProvideAndLockCollateral { collateral, .. },
        ) => Some(collateral),
        OperationView::Overseer(
            OverseerOperationsView::UnlockAndWithdrawCollateral { sender, collateral, amount },
        ) => if sender is None && amount is None {
            None
        } else {
            Some(collateral)
        },
        _ => None,
    }
}

/// The collateral whose record the compilation of an operation reads: none for an operation
/// that is about no collateral, and none for one that is refused before its record is read.
pub fn referenced_collateral(operation: &Operation) -> (r: Option<Addr>)
    ensures
        r.deep_view() == referenced_collateral_view(operation.deep_view()),
{
    match operation {
        Operation::Custody(CustodyOperations::ClaimRewards { collateral, .. }) => Some(
            collateral.clone(),
        ),
        Operation::Overseer(OverseerOperations::ProvideAndLockCollateral { collateral, .. }) => {
            Some(collateral.clone())
        },
        Operation::Overseer(
            OverseerOperations::UnlockAndWithdrawCollateral { sender, collateral, amount },
        ) => {
            if sender.is_none() && amount.is_none() {
                None
            } else {
                Some(collateral.clone())
            }
        },
        _ => None,
    }
}

/// Of the records, only that of the referenced collateral counts: two sets of records that
/// agree on it compile an operation alike, and an operation that references none compiles
/// alike under any records.
pub proof fn lemma_only_the_referenced_record_counts(
    config: ConfigView,
    records: Map<Seq<char>, CollateralInfoView>,
    others: Map<Seq<char>, CollateralInfoView>,
    operation: OperationView,
)
    requires
        match referenced_collateral_view(operation) {
            Some(collateral) => read_collateral_info_view(records, collateral)
                == read_collateral_info_view(others, collateral),
            None => true,
        },
    ensures
        compile_view(config, records, operation) == compile_view(config, others, operation),
{
}

} // verus!
