//! Entry points and operations of the swap and liquidity adapter.

use crate::composer::{
    call,
    call_view,
    no_funds,
    one_coin,
    one_coin_view,
    single,
    token_send,
    token_send_view,
};
use crate::gateway::{
    StateAnswer,
    StateAnswerView,
    StateQuery,
    StateQueryView,
    Step,
    StepView,
    answer_amount,
    answer_amount_view,
    asked_view,
    emit,
    finished,
    finished_view,
    unasked,
    unasked_view,
};
use crate::hop::{send_with_hop, send_with_hop_view};
use crate::oraidex::asset::{Asset, AssetInfo, AssetInfoView, AssetView};
use crate::oraidex::pair::{PairExecuteMsg, PairExecuteMsgView};
use crate::oraidex::querier::{query_staking_amount, query_token_balance};
use crate::oraidex::router::{
    OraiswapExecuteMsg,
    OraiswapExecuteMsgView,
    SwapOperation,
    SwapOperationView,
};
use crate::oraidex::staking::{StakingExecuteMsg, StakingExecuteMsgView};
use crate::oraidex_operations::msg::{
    ConfigResponse,
    ConfigResponseView,
    ExecuteMsg,
    ExecuteMsgView,
    InstantiateMsg,
    InstantiateMsgView,
    MigrateMsg,
    Operations,
    OperationsView,
    QueryMsg,
    QueryMsgView,
    QueryResponse,
    QueryResponseView,
};
use crate::oraidex_operations::state::{Config, ConfigView};
use crate::payload::{ProtocolMsg, ProtocolMsgView};
use crate::resolver::{
    Quantity,
    QuantityView,
    asked_party,
    quantity,
    quantity_view,
    underspecified_view,
};
use crate::types::{
    Addr,
    Coin,
    CoinView,
    ContractError,
    ContractErrorView,
    CosmosMsg,
    CosmosMsgView,
    Decimal,
    Env,
    MessageInfo,
    Response,
    ResponseView,
    StdError,
    StdErrorView,
    StdResult,
    Uint128,
    action_response_view,
    empty_response_view,
    generic_err_view,
    not_found_view,
    overridden,
    result_view,
};
use vstd::prelude::*;

verus! {

/// Model of the configuration that an adapter starts with.
pub open spec fn initial_config_view(msg: InstantiateMsgView) -> ConfigView {
    ConfigView {
        owner: msg.owner,
        oraiswap_router: msg.oraiswap_router,
        oraiswap_staking: msg.oraiswap_staking,
    }
}

/// Sets the adapter up: the configuration to keep, and an empty response.
pub fn instantiate(_env: Env, _info: MessageInfo, msg: InstantiateMsg) -> (r: Result<
    (Config, Response),
    ContractError,
>)
    ensures
        result_view(r) == Ok::<(ConfigView, ResponseView), ContractErrorView>(
            (initial_config_view(msg.deep_view()), empty_response_view()),
        ),
{
    let config = Config {
        owner: msg.owner,
        oraiswap_router: msg.oraiswap_router,
        oraiswap_staking: msg.oraiswap_staking,
    };
    Ok((config, Response::default()))
}

/// Model of the configuration after an update.
pub open spec fn updated_config_view(
    config: ConfigView,
    owner: Option<Seq<char>>,
    oraiswap_router: Option<Seq<char>>,
    oraiswap_staking: Option<Seq<char>>,
) -> ConfigView {
    ConfigView {
        owner: overridden(config.owner, owner),
        oraiswap_router: overridden(config.oraiswap_router, oraiswap_router),
        oraiswap_staking: overridden(config.oraiswap_staking, oraiswap_staking),
    }
}

/// Overrides the fields of the configuration that are given. Only the owner may: for any
/// other caller the configuration stays as it was.
pub fn execute_update_config(
    config: &mut Config,
    _env: Env,
    info: MessageInfo,
    owner: Option<Addr>,
    oraiswap_router: Option<Addr>,
    oraiswap_staking: Option<Addr>,
) -> (r: Result<Response, ContractError>)
    ensures
        info.sender@ != old(config).owner@ ==> {
            &&& result_view(r) == Err::<ResponseView, ContractErrorView>(
                ContractErrorView::Unauthorized {  },
            )
            &&& final(config).deep_view() == old(config).deep_view()
        },
        info.sender@ == old(config).owner@ ==> {
            &&& result_view(r) == Ok::<ResponseView, ContractErrorView>(
                action_response_view("update_config"@),
            )
            &&& final(config).deep_view() == updated_config_view(
                old(config).deep_view(),
                owner.deep_view(),
                oraiswap_router.deep_view(),
                oraiswap_staking.deep_view(),
            )
        },
{
    if config.owner != info.sender {
        return Err(ContractError::Unauthorized {  });
    }
    if let Some(owner) = owner {
        config.owner = owner;
    }
    if let Some(oraiswap_router) = oraiswap_router {
        config.oraiswap_router = oraiswap_router;
    }
    if let Some(oraiswap_staking) = oraiswap_staking {
        config.oraiswap_staking = oraiswap_staking;
    }
    Ok(Response::action("update_config"))
}

/// Model of the configuration after a state-changing call of the owner.
pub open spec fn executed_config_view(config: ConfigView, msg: ExecuteMsgView) -> ConfigView {
    match msg {
        ExecuteMsgView::UpdateConfig {
            owner,
            oraiswap_router,
            oraiswap_staking,
        } => updated_config_view(
            config,
            owner,
            oraiswap_router,
            oraiswap_staking,
        ),
    }
}

/// Runs a state-changing call. Only the owner may: for any other caller the configuration
/// stays as it was.
pub fn execute(config: &mut Config, env: Env, info: MessageInfo, msg: ExecuteMsg) -> (r: Result<
    Response,
    ContractError,
>)
    ensures
        info.sender@ != old(config).owner@ ==> {
            &&& result_view(r) == Err::<ResponseView, ContractErrorView>(
                ContractErrorView::Unauthorized {  },
            )
            &&& final(config).deep_view() == old(config).deep_view()
        },
        info.sender@ == old(config).owner@ ==> {
            &&& result_view(r) == Ok::<ResponseView, ContractErrorView>(
                action_response_view("update_config"@),
            )
            &&& final(config).deep_view() == executed_config_view(
                old(config).deep_view(),
                msg.deep_view(),
            )
        },
{
    match msg {
        ExecuteMsg::UpdateConfig {
            owner,
            oraiswap_router,
            oraiswap_staking,
        } => execute_update_config(
            config,
            env,
            info,
            owner,
            oraiswap_router,
            oraiswap_staking,
        ),
    }
}

/// Model of [`query_config`].
pub open spec fn config_response_view(config: ConfigView) -> ConfigResponseView {
    ConfigResponseView {
        owner: config.owner,
        oraiswap_router: config.oraiswap_router,
        oraiswap_staking: config.oraiswap_staking,
    }
}

/// The configuration, as it is read out.
pub fn query_config(config: &Config, _env: Env) -> (r: StdResult<ConfigResponse>)
    ensures
        result_view(r) == Ok::<ConfigResponseView, StdErrorView>(
            config_response_view(config.deep_view()),
        ),
{
    Ok(
        ConfigResponse {
            owner: config.owner.clone(),
            oraiswap_router: config.oraiswap_router.clone(),
            oraiswap_staking: config.oraiswap_staking.clone(),
        },
    )
}

/// Migration changes no state.
pub fn migrate(_env: Env, _msg: MigrateMsg) -> (r: StdResult<Response>)
    ensures
        result_view(r) == Ok::<ResponseView, StdErrorView>(empty_response_view()),
{
    Ok(Response::default())
}

/// Model of the error for a payload that the schema of the adapter does not accept.
pub open spec fn messages_not_found_view() -> StdErrorView {
    not_found_view("Messages not found"@)
}

/// Model of [`decode`].
pub open spec fn decode_view(candidate: Option<OperationsView>) -> Result<
    OperationsView,
    StdErrorView,
> {
    match candidate {
        Some(operation) => Ok(operation),
        None => Err(messages_not_found_view()),
    }
}

/// The operation that a payload stands for. Fails where the schema did not parse it.
pub fn decode(candidate: Option<Operations>) -> (r: StdResult<Operations>)
    ensures
        result_view(r) == decode_view(candidate.deep_view()),
{
    match candidate {
        Some(operation) => Ok(operation),
        None => Err(StdError::not_found("Messages not found")),
    }
}

/// Model of [`query_bond_msg`].
pub open spec fn bond_view(
    config: ConfigView,
    sender: Option<Seq<char>>,
    lp_token: Seq<char>,
    asset_info: AssetInfoView,
    amount: Option<u128>,
) -> Result<StepView, StdErrorView> {
    match quantity_view(sender, amount) {
        Ok(QuantityView::Given(amount)) => Ok(
            StepView::Emit(
                seq![
                    token_send_view(
                        lp_token,
                        config.oraiswap_staking,
                        amount,
                        ProtocolMsgView::Staking(StakingExecuteMsgView::Bond { asset_info }),
                    ),
                ],
            ),
        ),
        Ok(QuantityView::AllOf(sender)) => Ok(
            StepView::Ask(StateQueryView::TokenBalance { token: lp_token, account: sender }),
        ),
        Err(e) => Err(e),
    }
}

/// Bonds pool tokens: one send to the staking contract. Without an amount the sender's whole
/// balance of the pool token is meant, and the question for it comes back; without amount and
/// sender the operation is refused.
pub fn query_bond_msg(
    config: &Config,
    _env: Env,
    sender: Option<Addr>,
    lp_token: Addr,
    asset_info: AssetInfo,
    amount: Option<Uint128>,
) -> (r: StdResult<Step>)
    ensures
        result_view(r) == bond_view(
            config.deep_view(),
            sender.deep_view(),
            lp_token@,
            asset_info.deep_view(),
            amount,
        ),
{
    match quantity(sender, amount)? {
        Quantity::Given(amount) => {
            let msg = token_send(
                lp_token,
                config.oraiswap_staking.clone(),
                amount,
                ProtocolMsg::Staking(StakingExecuteMsg::Bond { asset_info }),
            );
            Ok(Step::Emit(single(msg)))
        },
        Quantity::AllOf(sender) => Ok(
            Step::Ask(query_token_balance(lp_token, sender)),
        ),
    }
}

/// Model of [`query_unbond_msg`].
pub open spec fn unbond_view(
    config: ConfigView,
    sender: Option<Seq<char>>,
    asset_info: AssetInfoView,
    amount: Option<u128>,
) -> Result<StepView, StdErrorView> {
    match quantity_view(sender, amount) {
        Ok(QuantityView::Given(amount)) => Ok(
            StepView::Emit(
                seq![
                    call_view(
                        config.oraiswap_staking,
                        ProtocolMsgView::Staking(
                            StakingExecuteMsgView::Unbond { asset_info, amount },
                        ),
                        Seq::empty(),
                    ),
                ],
            ),
        ),
        Ok(QuantityView::AllOf(sender)) => Ok(
            StepView::Ask(
                StateQueryView::StakedAmount {
                    staking: config.oraiswap_staking,
                    staker: sender,
                    asset_info,
                },
            ),
        ),
        Err(e) => Err(e),
    }
}

/// Unbonds from a pool: one call of the staking contract. Without an amount all that the
/// sender has bonded in the pool is meant, and the question for it comes back; without amount
/// and sender the operation is refused.
pub fn query_unbond_msg(
    config: &Config,
    _env: Env,
    sender: Option<Addr>,
    asset_info: AssetInfo,
    amount: Option<Uint128>,
) -> (r: StdResult<Step>)
    ensures
        result_view(r) == unbond_view(
            config.deep_view(),
            sender.deep_view(),
            asset_info.deep_view(),
            amount,
        ),
{
    match quantity(sender, amount)? {
        Quantity::Given(amount) => {
            let msg = call(
                config.oraiswap_staking.clone(),
                ProtocolMsg::Staking(StakingExecuteMsg::Unbond { asset_info, amount }),
                no_funds(),
            );
            Ok(Step::Emit(single(msg)))
        },
        Quantity::AllOf(sender) => Ok(
            Step::Ask(query_staking_amount(config.oraiswap_staking.clone(), sender, asset_info)),
        ),
    }
}

/// Model of [`query_withdraw_msg`].
pub open spec fn withdraw_view(config: ConfigView, asset_info: Option<AssetInfoView>) -> Seq<
    CosmosMsgView,
> {
    seq![
        call_view(
            config.oraiswap_staking,
            ProtocolMsgView::Staking(StakingExecuteMsgView::Withdraw { asset_info }),
            Seq::empty(),
        ),
    ]
}

/// Withdraws pending rewards: one call of the staking contract.
pub fn query_withdraw_msg(config: &Config, _env: Env, asset_info: Option<AssetInfo>) -> (r: StdResult<
    Vec<CosmosMsg>,
>)
    ensures
        result_view(r) == Ok::<Seq<CosmosMsgView>, StdErrorView>(
            withdraw_view(config.deep_view(), asset_info.deep_view()),
        ),
{
    let msg = call(
        config.oraiswap_staking.clone(),
        ProtocolMsg::Staking(StakingExecuteMsg::Withdraw { asset_info }),
        no_funds(),
    );
    Ok(single(msg))
}

/// Model of [`query_withdraw_liquidity_msg`].
pub open spec fn withdraw_liquidity_view(
    sender: Option<Seq<char>>,
    pair_contract: Seq<char>,
    lp_token: Seq<char>,
    amount: Option<u128>,
) -> Result<StepView, StdErrorView> {
    match quantity_view(sender, amount) {
        Ok(QuantityView::Given(amount)) => Ok(
            StepView::Emit(
                seq![
                    token_send_view(
                        lp_token,
                        pair_contract,
                        amount,
                        ProtocolMsgView::Pair(PairExecuteMsgView::WithdrawLiquidity {  }),
                    ),
                ],
            ),
        ),
        Ok(QuantityView::AllOf(sender)) => Ok(
            StepView::Ask(StateQueryView::TokenBalance { token: lp_token, account: sender }),
        ),
        Err(e) => Err(e),
    }
}

/// Withdraws liquidity: one send of pool tokens to the pair. Without an amount the sender's
/// whole balance of the pool token is meant, and the question for it comes back; without
/// amount and sender the operation is refused.
pub fn query_withdraw_liquidity_msg(
    _env: Env,
    sender: Option<Addr>,
    pair_contract: Addr,
    lp_token: Addr,
    amount: Option<Uint128>,
) -> (r: StdResult<Step>)
    ensures
        result_view(r) == withdraw_liquidity_view(
            sender.deep_view(),
            pair_contract@,
            lp_token@,
            amount,
        ),
{
    match quantity(sender, amount)? {
        Quantity::Given(amount) => {
            let msg = token_send(
                lp_token,
                pair_contract,
                amount,
                ProtocolMsg::Pair(PairExecuteMsg::WithdrawLiquidity {  }),
            );
            Ok(Step::Emit(single(msg)))
        },
        Quantity::AllOf(sender) => Ok(
            Step::Ask(query_token_balance(lp_token, sender)),
        ),
    }
}

/// The funds that go with a provision of liquidity: of the assets, those that are native, in
/// their order. Token assets are not funds: their transfer is approved apart.
pub open spec fn native_funds_view(assets: Seq<AssetView>) -> Seq<CoinView>
    decreases assets.len(),
{
    if assets.len() == 0 {
        Seq::empty()
    } else {
        let before = native_funds_view(assets.drop_last());
        match assets.last().info {
            AssetInfoView::NativeToken { denom } => before.push(
                CoinView { denom, amount: assets.last().amount },
            ),
            AssetInfoView::Token { .. } => before,
        }
    }
}

/// Model of [`query_provide_liquidity_msg`].
pub open spec fn provide_liquidity_view(
    pair_contract: Seq<char>,
    assets: Seq<AssetView>,
    slippage_tolerance: Option<Decimal>,
    receiver: Option<Seq<char>>,
) -> Seq<CosmosMsgView> {
    seq![
        call_view(
            pair_contract,
            ProtocolMsgView::Pair(
                PairExecuteMsgView::ProvideLiquidity { assets, slippage_tolerance, receiver },
            ),
            native_funds_view(assets),
        ),
    ]
}

/// Provides liquidity: one call of the pair, with the native ones of the two assets attached
/// as funds.
pub fn query_provide_liquidity_msg(
    _env: Env,
    pair_contract: Addr,
    assets: [Asset; 2],
    slippage_tolerance: Option<Decimal>,
    receiver: Option<Addr>,
) -> (r: StdResult<Vec<CosmosMsg>>)
    ensures
        result_view(r) == Ok::<Seq<CosmosMsgView>, StdErrorView>(
            provide_liquidity_view(
                pair_contract@,
                assets.deep_view(),
                slippage_tolerance,
                receiver.deep_view(),
            ),
        ),
{
    let mut funds: Vec<Coin> = Vec::new();
    let ghost all = assets.deep_view();
    assert(funds.deep_view() =~= native_funds_view(all.take(0)));
    let mut i: usize = 0;
    while i < 2
        invariant
            i <= 2,
            all == assets.deep_view(),
            all.len() == 2,
            funds.deep_view() == native_funds_view(all.take(i as int)),
        decreases 2 - i,
    {
        let ghost before = funds.deep_view();
        assert(all.take(i + 1).drop_last() =~= all.take(i as int));
        assert(all.take(i + 1).last() == assets[i as int].deep_view());
        if let AssetInfo::NativeToken { denom } = &assets[i].info {
            funds.push(Coin { denom: denom.clone(), amount: assets[i].amount });
            assert(funds.deep_view() =~= before.push(
                CoinView { denom: denom@, amount: assets[i as int].amount },
            ));
        }
        i += 1;
    }
    assert(all.take(2) =~= all);
    let msg = call(
        pair_contract,
        ProtocolMsg::Pair(PairExecuteMsg::ProvideLiquidity { assets, slippage_tolerance, receiver }),
        funds,
    );
    Ok(single(msg))
}

/// Model of the error for a swap without steps.
pub open spec fn empty_swap_view() -> StdErrorView {
    generic_err_view("Swap operations is empty!!!"@)
}

/// Model of [`query_swap_operations_msg`].
pub open spec fn swap_operations_view(
    config: ConfigView,
    executor_addr: Seq<char>,
    sender: Seq<char>,
    amount: Option<u128>,
    operations: Seq<SwapOperationView>,
    minimum_receive: Option<u128>,
    to: Option<Seq<char>>,
) -> Result<StepView, StdErrorView> {
    if operations.len() == 0 {
        Err(empty_swap_view())
    } else {
        let swap = ProtocolMsgView::Router(
            OraiswapExecuteMsgView::ExecuteSwapOperations { operations, minimum_receive, to },
        );
        match operations[0].offer() {
            AssetInfoView::NativeToken { denom } => match amount {
                Some(amount) => Ok(
                    StepView::Emit(
                        seq![call_view(config.oraiswap_router, swap, one_coin_view(denom, amount))],
                    ),
                ),
                None => Ok(StepView::Ask(StateQueryView::NativeBalance { account: sender, denom })),
            },
            AssetInfoView::Token { contract_addr } => Ok(
                send_with_hop_view(
                    contract_addr,
                    sender,
                    executor_addr,
                    amount,
                    config.oraiswap_router,
                    swap,
                ),
            ),
        }
    }
}

/// Swaps along a route, funded by `sender` and run by `executor_addr`. A route without steps
/// is refused before anything else. What the first step takes in decides the shape: a native
/// offer rides as funds on the one call of the router, and no hop is possible; a token offer
/// is sent to the router with the route as payload, after the hop to the executor where
/// sender and executor differ. Without an amount the sender's whole balance of the offer is
/// meant, and the question for it comes back.
pub fn query_swap_operations_msg(
    config: &Config,
    _env: Env,
    executor_addr: Addr,
    sender: Addr,
    amount: Option<Uint128>,
    operations: Vec<SwapOperation>,
    minimum_receive: Option<Uint128>,
    to: Option<Addr>,
) -> (r: StdResult<Step>)
    ensures
        result_view(r) == swap_operations_view(
            config.deep_view(),
            executor_addr@,
            sender@,
            amount,
            operations.deep_view(),
            minimum_receive,
            to.deep_view(),
        ),
{
    if operations.len() == 0 {
        return Err(StdError::generic_err("Swap operations is empty!!!"));
    }
    let offer_asset = operations[0].get_offer_asset_info();
    assert(operations.deep_view()[0] == operations[0].deep_view());
    let swap = ProtocolMsg::Router(
        OraiswapExecuteMsg::ExecuteSwapOperations { operations, minimum_receive, to },
    );
    match offer_asset {
        AssetInfo::NativeToken { denom } => match amount {
            Some(amount) => {
                let msg = call(config.oraiswap_router.clone(), swap, one_coin(denom, amount));
                Ok(Step::Emit(single(msg)))
            },
            None => Ok(Step::Ask(StateQuery::NativeBalance { account: sender, denom })),
        },
        AssetInfo::Token { contract_addr } => match amount {
            Some(amount) => Ok(
                Step::Emit(
                    send_with_hop(
                        contract_addr,
                        sender,
                        executor_addr,
                        amount,
                        config.oraiswap_router.clone(),
                        swap,
                    ),
                ),
            ),
            None => Ok(Step::Ask(query_token_balance(contract_addr, sender))),
        },
    }
}

/// Model of [`compile`].
pub open spec fn compile_view(config: ConfigView, operation: OperationsView) -> Result<
    StepView,
    StdErrorView,
> {
    match operation {
        OperationsView::SwapOperations {
            executor_addr,
            sender,
            amount,
            operations,
            minimum_receive,
            to,
        } => swap_operations_view(
            config,
            executor_addr,
            sender,
            amount,
            operations,
            minimum_receive,
            to,
        ),
        OperationsView::ProvideLiquidity { pair_contract, assets, slippage_tolerance, receiver } => {
            Ok(
                StepView::Emit(
                    provide_liquidity_view(pair_contract, assets, slippage_tolerance, receiver),
                ),
            )
        },
        OperationsView::WithdrawLiquidity { sender, pair_contract, lp_token, amount } => {
            withdraw_liquidity_view(sender, pair_contract, lp_token, amount)
        },
        OperationsView::Bond { sender, lp_token, asset_info, amount } => bond_view(
            config,
            sender,
            lp_token,
            asset_info,
            amount,
        ),
        OperationsView::Unbond { sender, asset_info, amount } => unbond_view(
            config,
            sender,
            asset_info,
            amount,
        ),
        OperationsView::Withdraw { asset_info } => Ok(
            StepView::Emit(withdraw_view(config, asset_info)),
        ),
    }
}

/// Compiles a decoded operation: to its messages, or to the question whose answer fills its
/// open amount.
pub fn compile(config: &Config, env: Env, operation: Operations) -> (r: StdResult<Step>)
    ensures
        result_view(r) == compile_view(config.deep_view(), operation.deep_view()),
{
    match operation {
        Operations::SwapOperations {
            executor_addr,
            sender,
            amount,
            operations,
            minimum_receive,
            to,
        } => query_swap_operations_msg(
            config,
            env,
            executor_addr,
            sender,
            amount,
            operations,
            minimum_receive,
            to,
        ),
        Operations::ProvideLiquidity { pair_contract, assets, slippage_tolerance, receiver } => emit(
            query_provide_liquidity_msg(env, pair_contract, assets, slippage_tolerance, receiver),
        ),
        Operations::WithdrawLiquidity { sender, pair_contract, lp_token, amount } => {
            query_withdraw_liquidity_msg(env, sender, pair_contract, lp_token, amount)
        },
        Operations::Bond { sender, lp_token, asset_info, amount } => query_bond_msg(
            config,
            env,
            sender,
            lp_token,
            asset_info,
            amount,
        ),
        Operations::Unbond { sender, asset_info, amount } => query_unbond_msg(
            config,
            env,
            sender,
            asset_info,
            amount,
        ),
        Operations::Withdraw { asset_info } => emit(query_withdraw_msg(config, env, asset_info)),
    }
}

/// Model of [`query`].
pub open spec fn query_view(config: ConfigView, msg: QueryMsgView) -> Result<
    QueryResponseView,
    StdErrorView,
> {
    match msg {
        QueryMsgView::Config {  } => Ok(QueryResponseView::Config(config_response_view(config))),
        QueryMsgView::Messages { msg } => match decode_view(msg) {
            Ok(operation) => match compile_view(config, operation) {
                Ok(step) => Ok(QueryResponseView::Messages(step)),
                Err(e) => Err(e),
            },
            Err(e) => Err(e),
        },
    }
}

/// Answers a read-only call. A payload that the schema parsed is compiled; one that it did
/// not parse fails the call.
pub fn query(config: &Config, env: Env, msg: QueryMsg) -> (r: StdResult<QueryResponse>)
    ensures
        result_view(r) == query_view(config.deep_view(), msg.deep_view()),
{
    match msg {
        QueryMsg::Config {  } => Ok(QueryResponse::Config(query_config(config, env)?)),
        QueryMsg::Messages { msg } => {
            let operation = decode(msg)?;
            Ok(QueryResponse::Messages(compile(config, env, operation)?))
        },
    }
}

/// An operation that was compiled to messages has at least one, and a swap without steps is
/// refused whatever else it holds.
pub proof fn lemma_messages_never_empty(config: ConfigView, operation: OperationsView)
    ensures
        match compile_view(config, operation) {
            Ok(StepView::Emit(messages)) => messages.len() >= 1,
            _ => true,
        },
        operation matches OperationsView::SwapOperations { operations, .. } && operations.len() == 0
            ==> compile_view(config, operation) == Err::<StepView, StdErrorView>(empty_swap_view()),
{
}

/// Once the open amount of an operation is filled, no further question is asked: the
/// operation compiles to its messages or fails.
pub proof fn lemma_filled_operation_asks_nothing(
    config: ConfigView,
    operation: OperationsView,
    amount: u128,
)
    ensures
        !(compile_view(config, operation.fill_amount(amount)) matches Ok(StepView::Ask(_))),
{
}

/// An operation that names neither its amount nor a sender is refused: no question is asked
/// and no message is built.
pub proof fn lemma_underspecified_operation_refused(
    config: ConfigView,
    pair_contract: Seq<char>,
    lp_token: Seq<char>,
    asset_info: AssetInfoView,
)
    ensures
        compile_view(
            config,
            OperationsView::WithdrawLiquidity { sender: None, pair_contract, lp_token, amount: None },
        ) == Err::<StepView, StdErrorView>(underspecified_view()),
        compile_view(
            config,
            OperationsView::Bond { sender: None, lp_token, asset_info, amount: None },
        ) == Err::<StepView, StdErrorView>(underspecified_view()),
        compile_view(config, OperationsView::Unbond { sender: None, asset_info, amount: None })
            == Err::<StepView, StdErrorView>(underspecified_view()),
{
}

/// Model of [`pending_question`].
pub open spec fn pending_question_view(config: ConfigView, operation: OperationsView) -> Option<
    StateQueryView,
> {
    asked_view(compile_view(config, operation))
}

/// The question that an operation puts to the chain as it stands: that for the state which
/// fills its open amount, where the amount is open and nothing refuses the operation first.
pub fn pending_question(config: &Config, operation: &Operations) -> (r: Option<StateQuery>)
    ensures
        r.deep_view() == pending_question_view(config.deep_view(), operation.deep_view()),
{
    match operation {
        Operations::SwapOperations { sender, amount, operations, .. } => {
            if operations.len() == 0 || amount.is_some() {
                None
            } else {
                assert(operations.deep_view()[0] == operations[0].deep_view());
                match operations[0].get_offer_asset_info() {
                    AssetInfo::NativeToken { denom } => Some(
                        StateQuery::NativeBalance { account: sender.clone(), denom },
                    ),
                    AssetInfo::Token { contract_addr } => Some(
                        query_token_balance(contract_addr, sender.clone()),
                    ),
                }
            }
        },
        Operations::WithdrawLiquidity { sender, lp_token, amount, .. } => match asked_party(
            sender,
            amount,
        ) {
            Some(party) => Some(query_token_balance(lp_token.clone(), party)),
            None => None,
        },
        Operations::Bond { sender, lp_token, amount, .. } => match asked_party(sender, amount) {
            Some(party) => Some(query_token_balance(lp_token.clone(), party)),
            None => None,
        },
        Operations::Unbond { sender, asset_info, amount } => match asked_party(sender, amount) {
            Some(party) => Some(
                query_staking_amount(config.oraiswap_staking.clone(), party, asset_info.clone()),
            ),
            None => None,
        },
        Operations::ProvideLiquidity { .. } => None,
        Operations::Withdraw { .. } => None,
    }
}

/// Model of [`resume`].
pub open spec fn resume_view(
    config: ConfigView,
    operation: OperationsView,
    question: StateQueryView,
    answer: StateAnswerView,
) -> Result<Seq<CosmosMsgView>, StdErrorView> {
    if pending_question_view(config, operation) == Some(question) {
        match answer_amount_view(question, answer) {
            Ok(amount) => finished_view(compile_view(config, operation.fill_amount(amount))),
            Err(e) => Err(e),
        }
    } else {
        Err(unasked_view())
    }
}

/// Compiles an operation that asked `question`, now that the chain has answered: the amount
/// that the answer is worth fills the open amount of the operation, and the operation
/// compiles to its messages. Fails where `question` is not what the operation asks, and where
/// the answer is worth no amount.
pub fn resume(
    config: &Config,
    env: Env,
    operation: Operations,
    question: &StateQuery,
    answer: &StateAnswer,
) -> (r: StdResult<Vec<CosmosMsg>>)
    ensures
        result_view(r) == resume_view(
            config.deep_view(),
            operation.deep_view(),
            question.deep_view(),
            answer.deep_view(),
        ),
{
    match pending_question(config, &operation) {
        Some(asked) => {
            if !asked.same(question) {
                return Err(unasked());
            }
        },
        None => {
            return Err(unasked());
        },
    }
    let amount = answer_amount(question, answer)?;
    finished(compile(config, env, operation.fill_amount(amount)))
}

/// An operation that is resumed with the answer to its own question never ends on a
/// question: it has the messages of the operation with its amount filled, or it fails as that
/// operation does. Resumed with any other question it fails.
pub proof fn lemma_resumed_operation_is_finished(
    config: ConfigView,
    operation: OperationsView,
    question: StateQueryView,
    answer: StateAnswerView,
)
    ensures
        pending_question_view(config, operation) != Some(question) ==> resume_view(
            config,
            operation,
            question,
            answer,
        ) == Err::<Seq<CosmosMsgView>, StdErrorView>(unasked_view()),
        pending_question_view(config, operation) == Some(question) ==> (answer_amount_view(
            question,
            answer,
        ) matches Ok(amount) ==> match compile_view(config, operation.fill_amount(amount)) {
            Ok(StepView::Emit(messages)) => resume_view(config, operation, question, answer)
                == Ok::<Seq<CosmosMsgView>, StdErrorView>(messages),
            Ok(StepView::Ask(_)) => false,
            Err(e) => resume_view(config, operation, question, answer) == Err::<
                Seq<CosmosMsgView>,
                StdErrorView,
            >(e),
        }),
{
    if let Ok(amount) = answer_amount_view(question, answer) {
        lemma_filled_operation_asks_nothing(config, operation, amount);
    }
}

} // verus!
