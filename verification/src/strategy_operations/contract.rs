//! Entry points of the strategy adapter.

use crate::gateway::{Step, StepView, emit};
use crate::strategy_operations::msg::{
    ConfigResponse,
    ConfigResponseView,
    ExecuteMsg,
    ExecuteMsgView,
    InstantiateMsg,
    InstantiateMsgView,
    MigrateMsg,
    QueryMsg,
    QueryMsgView,
    QueryResponse,
    QueryResponseView,
    StrategyOperations,
    StrategyOperationsView,
};
use crate::strategy_operations::state::{Config, ConfigView};
use crate::strategy_operations::strategy::{query_verify_strategy_msg, verify_strategy_view};
use crate::types::{
    Addr,
    ContractError,
    ContractErrorView,
    Env,
    MessageInfo,
    Response,
    ResponseView,
    StdError,
    StdErrorView,
    StdResult,
    action_response_view,
    empty_response_view,
    not_found_view,
    overridden,
    result_view,
};
use vstd::prelude::*;

verus! {

/// Model of the configuration that an adapter starts with.
pub open spec fn initial_config_view(msg: InstantiateMsgView) -> ConfigView {
    ConfigView {
        owner: msg.owner,
        strategy_contract: msg.strategy_contract,
    }
}

/// Sets the adapter up: the configuration to keep, and an empty response.
pub fn instantiate(_env: Env, _info: MessageInfo, msg: InstantiateMsg) -> (r: Result<
    (Config, Response),
    ContractError,
>)
    ensures
        result_view(r) == Ok::<(ConfigView, ResponseView), ContractErrorView>(
            (initial_config_view(msg.deep_view()), empty_response_view()),
        ),
{
    let config = Config {
        owner: msg.owner,
        strategy_contract: msg.strategy_contract,
    };
    Ok((config, Response::default()))
}

/// Model of the configuration after an update.
pub open spec fn updated_config_view(
    config: ConfigView,
    owner: Option<Seq<char>>,
    strategy_contract: Option<Seq<char>>,
) -> ConfigView {
    ConfigView {
        owner: overridden(config.owner, owner),
        strategy_contract: overridden(config.strategy_contract, strategy_contract),
    }
}

/// Overrides the fields of the configuration that are given. Only the owner may: for any
/// other caller the configuration stays as it was.
pub fn execute_update_config(
    config: &mut Config,
    info: MessageInfo,
    owner: Option<Addr>,
    strategy_contract: Option<Addr>,
) -> (r: Result<Response, ContractError>)
    ensures
        info.sender@ != old(config).owner@ ==> {
            &&& result_view(r) == Err::<ResponseView, ContractErrorView>(
                ContractErrorView::Unauthorized {  },
            )
            &&& final(config).deep_view() == old(config).deep_view()
        },
        info.sender@ == old(config).owner@ ==> {
            &&& result_view(r) == Ok::<ResponseView, ContractErrorView>(
                action_response_view("update_config"@),
            )
            &&& final(config).deep_view() == updated_config_view(
                old(config).deep_view(),
                owner.deep_view(),
                strategy_contract.deep_view(),
            )
        },
{
    if config.owner != info.sender {
        return Err(ContractError::Unauthorized {  });
    }
    if let Some(owner) = owner {
        config.owner = owner;
    }
    if let Some(strategy_contract) = strategy_contract {
        config.strategy_contract = strategy_contract;
    }
    Ok(Response::action("update_config"))
}

/// Model of the configuration after a state-changing call of the owner.
pub open spec fn executed_config_view(config: ConfigView, msg: ExecuteMsgView) -> ConfigView {
    match msg {
        ExecuteMsgView::UpdateConfig { owner, strategy_contract } => updated_config_view(
            config,
            owner,
            strategy_contract,
        ),
    }
}

/// Runs a state-changing call. Only the owner may: for any other caller the configuration
/// stays as it was.
pub fn execute(config: &mut Config, _env: Env, info: MessageInfo, msg: ExecuteMsg) -> (r: Result<
    Response,
    ContractError,
>)
    ensures
        info.sender@ != old(config).owner@ ==> {
            &&& result_view(r) == Err::<ResponseView, ContractErrorView>(
                ContractErrorView::Unauthorized {  },
            )
            &&& final(config).deep_view() == old(config).deep_view()
        },
        info.sender@ == old(config).owner@ ==> {
            &&& result_view(r) == Ok::<ResponseView, ContractErrorView>(
                action_response_view("update_config"@),
            )
            &&& final(config).deep_view() == executed_config_view(
                old(config).deep_view(),
                msg.deep_view(),
            )
        },
{
    match msg {
        ExecuteMsg::UpdateConfig { owner, strategy_contract } => execute_update_config(
            config,
            info,
            owner,
            strategy_contract,
        ),
    }
}

/// Model of [`query_config`].
pub open spec fn config_response_view(config: ConfigView) -> ConfigResponseView {
    ConfigResponseView {
        owner: config.owner,
        strategy_contract: config.strategy_contract,
    }
}

/// The configuration, as it is read out.
pub fn query_config(config: &Config) -> (r: StdResult<ConfigResponse>)
    ensures
        result_view(r) == Ok::<ConfigResponseView, StdErrorView>(
            config_response_view(config.deep_view()),
        ),
{
    Ok(
        ConfigResponse {
            owner: config.owner.clone(),
            strategy_contract: config.strategy_contract.clone(),
        },
    )
}

/// Migration changes no state.
pub fn migrate(_env: Env, _msg: MigrateMsg) -> (r: StdResult<Response>)
    ensures
        result_view(r) == Ok::<ResponseView, StdErrorView>(empty_response_view()),
{
    Ok(Response::default())
}

/// Model of the error for a payload that the schema of the adapter does not accept.
pub open spec fn operations_not_found_view() -> StdErrorView {
    not_found_view("Operations not found"@)
}

/// Model of [`decode`].
pub open spec fn decode_view(candidate: Option<StrategyOperationsView>) -> Result<
    StrategyOperationsView,
    StdErrorView,
> {
    match candidate {
        Some(operation) => Ok(operation),
        None => Err(operations_not_found_view()),
    }
}

/// The operation that a payload stands for. Fails where the schema did not parse it.
pub fn decode(candidate: Option<StrategyOperations>) -> (r: StdResult<StrategyOperations>)
    ensures
        result_view(r) == decode_view(candidate.deep_view()),
{
    match candidate {
        Some(operation) => Ok(operation),
        None => Err(StdError::not_found("Operations not found")),
    }
}

/// Model of [`compile`].
pub open spec fn compile_view(config: ConfigView, operation: StrategyOperationsView) -> Result<
    StepView,
    StdErrorView,
> {
    match operation {
        StrategyOperationsView::VerifyStrategy { creator, id } => Ok(
            StepView::Emit(verify_strategy_view(config, creator, id)),
        ),
    }
}

/// Compiles a decoded operation to its messages.
pub fn compile(config: &Config, operation: StrategyOperations) -> (r: StdResult<Step>)
    ensures
        result_view(r) == compile_view(config.deep_view(), operation.deep_view()),
{
    match operation {
        StrategyOperations::VerifyStrategy { creator, id } => emit(
            query_verify_strategy_msg(config, creator, id),
        ),
    }
}

/// Model of [`query`].
pub open spec fn query_view(config: ConfigView, msg: QueryMsgView) -> Result<
    QueryResponseView,
    StdErrorView,
> {
    match msg {
        QueryMsgView::Config {  } => Ok(QueryResponseView::Config(config_response_view(config))),
        QueryMsgView::Messages { msg } => match decode_view(msg) {
            Ok(operation) => match compile_view(config, operation) {
                Ok(step) => Ok(QueryResponseView::Messages(step)),
                Err(e) => Err(e),
            },
            Err(e) => Err(e),
        },
    }
}

/// Answers a read-only call. A payload that the schema parsed is compiled; one that it did
/// not parse fails the call.
pub fn query(config: &Config, _env: Env, msg: QueryMsg) -> (r: StdResult<QueryResponse>)
    ensures
        result_view(r) == query_view(config.deep_view(), msg.deep_view()),
{
    match msg {
        QueryMsg::Config {  } => Ok(QueryResponse::Config(query_config(config)?)),
        QueryMsg::Messages { msg } => {
            let operation = decode(msg)?;
            Ok(QueryResponse::Messages(compile(config, operation)?))
        },
    }
}

} // verus!
