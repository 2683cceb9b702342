//! Entry points of the cross-chain adapter.

use crate::gateway::{Step, StepView, emit, emit_view};
use crate::theta_operations::ica::{
    delegate_on_host_chain_view,
    query_delegate_on_host_chain,
    query_register_interchain_account_msg,
    query_transfer_from_host_chain_msg,
    query_transfer_to_host_chain_msg,
    register_interchain_account_view,
    transfer_from_host_chain_view,
    transfer_to_host_chain_view,
};
use crate::theta_operations::msg::{
    ConfigResponse,
    ConfigResponseView,
    ExecuteMsg,
    ExecuteMsgView,
    IcaOperations,
    IcaOperationsView,
    InstantiateMsg,
    InstantiateMsgView,
    MigrateMsg,
    QueryMsg,
    QueryMsgView,
    QueryResponse,
    QueryResponseView,
};
use crate::theta_operations::state::{Config, ConfigView};
use crate::types::{
    Addr,
    ContractError,
    ContractErrorView,
    Env,
    MessageInfo,
    Response,
    ResponseView,
    StdError,
    StdErrorView,
    StdResult,
    action_response_view,
    empty_response_view,
    not_found_view,
    overridden,
    result_view,
};
use vstd::prelude::*;

verus! {

/// Model of the configuration that an adapter starts with.
pub open spec fn initial_config_view(msg: InstantiateMsgView) -> ConfigView {
    ConfigView {
        owner: msg.owner,
        chain_id: msg.chain_id,
        ica_connection_id: msg.ica_connection_id,
        timeout_default: msg.timeout_default,
    }
}

/// Sets the adapter up: the configuration to keep, and an empty response.
pub fn instantiate(_env: Env, _info: MessageInfo, msg: InstantiateMsg) -> (r: Result<
    (Config, Response),
    ContractError,
>)
    ensures
        result_view(r) == Ok::<(ConfigView, ResponseView), ContractErrorView>(
            (initial_config_view(msg.deep_view()), empty_response_view()),
        ),
{
    let config = Config {
        owner: msg.owner,
        chain_id: msg.chain_id,
        ica_connection_id: msg.ica_connection_id,
        timeout_default: msg.timeout_default,
    };
    Ok((config, Response::default()))
}

/// Model of the configuration after an update.
pub open spec fn updated_config_view(
    config: ConfigView,
    owner: Option<Seq<char>>,
    timeout_default: Option<u64>,
) -> ConfigView {
    ConfigView {
        owner: overridden(config.owner, owner),
        chain_id: config.chain_id,
        ica_connection_id: config.ica_connection_id,
        timeout_default: overridden(config.timeout_default, timeout_default),
    }
}

/// Overrides the fields of the configuration that are given. Only the owner may: for any
/// other caller the configuration stays as it was.
pub fn execute_update_config(
    config: &mut Config,
    info: MessageInfo,
    owner: Option<Addr>,
    timeout_default: Option<u64>,
) -> (r: Result<Response, ContractError>)
    ensures
        info.sender@ != old(config).owner@ ==> {
            &&& result_view(r) == Err::<ResponseView, ContractErrorView>(
                ContractErrorView::Unauthorized {  },
            )
            &&& final(config).deep_view() == old(config).deep_view()
        },
        info.sender@ == old(config).owner@ ==> {
            &&& result_view(r) == Ok::<ResponseView, ContractErrorView>(
                action_response_view("update_config"@),
            )
            &&& final(config).deep_view() == updated_config_view(
                old(config).deep_view(),
                owner.deep_view(),
                timeout_default.deep_view(),
            )
        },
{
    if config.owner != info.sender {
        return Err(ContractError::Unauthorized {  });
    }
    if let Some(owner) = owner {
        config.owner = owner;
    }
    if let Some(timeout_default) = timeout_default {
        config.timeout_default = timeout_default;
    }
    Ok(Response::action("update_config"))
}

/// Model of the configuration after a state-changing call of the owner.
pub open spec fn executed_config_view(config: ConfigView, msg: ExecuteMsgView) -> ConfigView {
    match msg {
        ExecuteMsgView::UpdateConfig { owner, timeout_default } => updated_config_view(
            config,
            owner,
            timeout_default,
        ),
    }
}

/// Runs a state-changing call. Only the owner may: for any other caller the configuration
/// stays as it was.
pub fn execute(config: &mut Config, _env: Env, info: MessageInfo, msg: ExecuteMsg) -> (r: Result<
    Response,
    ContractError,
>)
    ensures
        info.sender@ != old(config).owner@ ==> {
            &&& result_view(r) == Err::<ResponseView, ContractErrorView>(
                ContractErrorView::Unauthorized {  },
            )
            &&& final(config).deep_view() == old(config).deep_view()
        },
        info.sender@ == old(config).owner@ ==> {
            &&& result_view(r) == Ok::<ResponseView, ContractErrorView>(
                action_response_view("update_config"@),
            )
            &&& final(config).deep_view() == executed_config_view(
                old(config).deep_view(),
                msg.deep_view(),
            )
        },
{
    match msg {
        ExecuteMsg::UpdateConfig { owner, timeout_default } => execute_update_config(
            config,
            info,
            owner,
            timeout_default,
        ),
    }
}

/// Model of [`query_config`].
pub open spec fn config_response_view(config: ConfigView) -> ConfigResponseView {
    ConfigResponseView {
        owner: config.owner,
        chain_id: config.chain_id,
        ica_connection_id: config.ica_connection_id,
        timeout_default: config.timeout_default,
    }
}

/// The configuration, as it is read out.
pub fn query_config(config: &Config) -> (r: StdResult<ConfigResponse>)
    ensures
        result_view(r) == Ok::<ConfigResponseView, StdErrorView>(
            config_response_view(config.deep_view()),
        ),
{
    Ok(
        ConfigResponse {
            owner: config.owner.clone(),
            chain_id: config.chain_id.clone(),
            ica_connection_id: config.ica_connection_id.clone(),
            timeout_default: config.timeout_default,
        },
    )
}

/// Migration changes no state.
pub fn migrate(_env: Env, _msg: MigrateMsg) -> (r: StdResult<Response>)
    ensures
        result_view(r) == Ok::<ResponseView, StdErrorView>(empty_response_view()),
{
    Ok(Response::default())
}

/// Model of the error for a payload that the adapter does not compile.
pub open spec fn operations_not_found_view() -> StdErrorView {
    not_found_view("Operations not found"@)
}

/// Model of [`decode`].
pub open spec fn decode_view(candidate: Option<IcaOperationsView>) -> Result<
    IcaOperationsView,
    StdErrorView,
> {
    match candidate {
        Some(operation) => Ok(operation),
        None => Err(operations_not_found_view()),
    }
}

/// The operation that a payload stands for. Fails where the schema did not parse it.
pub fn decode(candidate: Option<IcaOperations>) -> (r: StdResult<IcaOperations>)
    ensures
        result_view(r) == decode_view(candidate.deep_view()),
{
    match candidate {
        Some(operation) => Ok(operation),
        None => Err(StdError::not_found("Operations not found")),
    }
}

/// Model of [`compile`].
pub open spec fn compile_view(config: ConfigView, env: Env, operation: IcaOperationsView) -> Result<
    StepView,
    StdErrorView,
> {
    match operation {
        IcaOperationsView::TransferToHostChain { denom, amount, receiver, source_channel, .. } => {
            emit_view(
                transfer_to_host_chain_view(config, env, denom, amount, receiver, source_channel),
            )
        },
        IcaOperationsView::TransferFromHostChain {
            executor_addr,
            denom,
            amount,
            sender,
            receiver,
            source_port,
            source_channel,
        } => emit_view(
            transfer_from_host_chain_view(
                config,
                env,
                executor_addr,
                denom,
                amount,
                sender,
                receiver,
                source_port,
                source_channel,
            ),
        ),
        IcaOperationsView::DelegateOnHostChain {
            executor_addr,
            delegator,
            validator,
            denom,
            amount,
        } => Ok(
            StepView::Emit(
                delegate_on_host_chain_view(
                    config,
                    executor_addr,
                    delegator,
                    validator,
                    denom,
                    amount,
                ),
            ),
        ),
        IcaOperationsView::RegisterInterchainAccount { executor_addr } => Ok(
            StepView::Emit(register_interchain_account_view(config, executor_addr)),
        ),
    }
}

/// Compiles a decoded operation to its messages.
pub fn compile(config: &Config, env: Env, operation: IcaOperations) -> (r: StdResult<Step>)
    ensures
        result_view(r) == compile_view(config.deep_view(), env, operation.deep_view()),
{
    match operation {
        IcaOperations::TransferToHostChain {
            executor_addr,
            denom,
            amount,
            receiver,
            source_port,
            source_channel,
        } => emit(
            query_transfer_to_host_chain_msg(
                config,
                env,
                executor_addr,
                denom,
                amount,
                receiver,
                source_port,
                source_channel,
            ),
        ),
        IcaOperations::TransferFromHostChain {
            executor_addr,
            denom,
            amount,
            sender,
            receiver,
            source_port,
            source_channel,
        } => emit(
            query_transfer_from_host_chain_msg(
                config,
                env,
                executor_addr,
                denom,
                amount,
                sender,
                receiver,
                source_port,
                source_channel,
            ),
        ),
        IcaOperations::DelegateOnHostChain {
            executor_addr,
            delegator,
            validator,
            denom,
            amount,
        } => emit(
            query_delegate_on_host_chain(
                config,
                env,
                executor_addr,
                delegator,
                validator,
                denom,
                amount,
            ),
        ),
        IcaOperations::RegisterInterchainAccount { executor_addr } => emit(
            query_register_interchain_account_msg(config, executor_addr),
        ),
    }
}

/// Model of [`query`].
pub open spec fn query_view(config: ConfigView, env: Env, msg: QueryMsgView) -> Result<
    QueryResponseView,
    StdErrorView,
> {
    match msg {
        QueryMsgView::Config {  } => Ok(QueryResponseView::Config(config_response_view(config))),
        QueryMsgView::Messages { msg } => match decode_view(msg) {
            Ok(operation) => match compile_view(config, env, operation) {
                Ok(step) => Ok(QueryResponseView::Messages(step)),
                Err(e) => Err(e),
            },
            Err(e) => Err(e),
        },
    }
}

/// Answers a read-only call. A payload that the schema parsed is compiled; one that it did
/// not parse fails the call.
pub fn query(config: &Config, env: Env, msg: QueryMsg) -> (r: StdResult<QueryResponse>)
    ensures
        result_view(r) == query_view(config.deep_view(), env, msg.deep_view()),
{
    match msg {
        QueryMsg::Config {  } => Ok(QueryResponse::Config(query_config(config)?)),
        QueryMsg::Messages { msg } => {
            let operation = decode(msg)?;
            Ok(QueryResponse::Messages(compile(config, env, operation)?))
        },
    }
}

/// An operation that was compiled to messages has exactly one, and no operation of this
/// adapter asks the chain anything.
pub proof fn lemma_messages_never_empty(config: ConfigView, env: Env, operation: IcaOperationsView)
    ensures
        match compile_view(config, env, operation) {
            Ok(StepView::Emit(messages)) => messages.len() == 1,
            Ok(StepView::Ask(_)) => false,
            Err(_) => true,
        },
{
}

} // verus!
