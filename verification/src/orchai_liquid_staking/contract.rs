//! Entry points of the liquid staking adapter.

use crate::gateway::{
    StateAnswer,
    StateAnswerView,
    StateQuery,
    StateQueryView,
    Step,
    StepView,
    answer_amount,
    answer_amount_view,
    asked_view,
    emit,
    finished,
    finished_view,
    unasked,
    unasked_view,
};
use crate::orchai::orai_staking::BondType;
use crate::orchai::querier::query_token_balance;
use crate::orchai_liquid_staking::msg::{
    ConfigResponse,
    ConfigResponseView,
    ExecuteMsg,
    ExecuteMsgView,
    InstantiateMsg,
    InstantiateMsgView,
    MigrateMsg,
    QueryMsg,
    QueryMsgView,
    QueryResponse,
    QueryResponseView,
    StakingOperations,
    StakingOperationsView,
};
use crate::orchai_liquid_staking::orai_staking_operations::{
    query_orai_staking_bond_msg,
    query_orai_staking_claim_rewards_msg,
    query_orai_staking_convert_msg,
    query_orai_staking_unbond_msg,
    staking_bond_view,
    staking_claim_rewards_view,
    staking_convert_view,
    staking_unbond_view,
};
use crate::orchai_liquid_staking::state::{Config, ConfigView};
use crate::resolver::{asked_party, underspecified_view};
use crate::types::{
    Addr,
    ContractError,
    ContractErrorView,
    CosmosMsg,
    CosmosMsgView,
    Env,
    MessageInfo,
    Response,
    ResponseView,
    StdError,
    StdErrorView,
    StdResult,
    action_response_view,
    empty_response_view,
    not_found_view,
    overridden,
    result_view,
};
use vstd::prelude::*;

verus! {

/// Model of the configuration that an adapter starts with.
pub open spec fn initial_config_view(msg: InstantiateMsgView) -> ConfigView {
    ConfigView {
        owner: msg.owner,
        orai_staking_hub: msg.orai_staking_hub,
        orai_staking_reward: msg.orai_staking_reward,
        orai_staking_denom: msg.orai_staking_denom,
    }
}

/// Sets the adapter up: the configuration to keep, and an empty response.
pub fn instantiate(_env: Env, _info: MessageInfo, msg: InstantiateMsg) -> (r: Result<
    (Config, Response),
    ContractError,
>)
    ensures
        result_view(r) == Ok::<(ConfigView, ResponseView), ContractErrorView>(
            (initial_config_view(msg.deep_view()), empty_response_view()),
        ),
{
    let config = Config {
        owner: msg.owner,
        orai_staking_hub: msg.orai_staking_hub,
        orai_staking_reward: msg.orai_staking_reward,
        orai_staking_denom: msg.orai_staking_denom,
    };
    Ok((config, Response::default()))
}

/// Model of the configuration after an update.
pub open spec fn updated_config_view(
    config: ConfigView,
    owner: Option<Seq<char>>,
    orai_staking_hub: Option<Seq<char>>,
    orai_staking_reward: Option<Seq<char>>,
    orai_staking_denom: Option<Seq<char>>,
) -> ConfigView {
    ConfigView {
        owner: overridden(config.owner, owner),
        orai_staking_hub: overridden(config.orai_staking_hub, orai_staking_hub),
        orai_staking_reward: overridden(config.orai_staking_reward, orai_staking_reward),
        orai_staking_denom: overridden(config.orai_staking_denom, orai_staking_denom),
    }
}

/// Overrides the fields of the configuration that are given. Only the owner may: for any
/// other caller the configuration stays as it was.
pub fn execute_update_config(
    config: &mut Config,
    _env: Env,
    info: MessageInfo,
    owner: Option<Addr>,
    orai_staking_hub: Option<Addr>,
    orai_staking_reward: Option<Addr>,
    orai_staking_denom: Option<String>,
) -> (r: Result<Response, ContractError>)
    ensures
        info.sender@ != old(config).owner@ ==> {
            &&& result_view(r) == Err::<ResponseView, ContractErrorView>(
                ContractErrorView::Unauthorized {  },
            )
            &&& final(config).deep_view() == old(config).deep_view()
        },
        info.sender@ == old(config).owner@ ==> {
            &&& result_view(r) == Ok::<ResponseView, ContractErrorView>(
                action_response_view("update_config"@),
            )
            &&& final(config).deep_view() == updated_config_view(
                old(config).deep_view(),
                owner.deep_view(),
                orai_staking_hub.deep_view(),
                orai_staking_reward.deep_view(),
                orai_staking_denom.deep_view(),
            )
        },
{
    if config.owner != info.sender {
        return Err(ContractError::Unauthorized {  });
    }
    if let Some(owner) = owner {
        config.owner = owner;
    }
    if let Some(orai_staking_hub) = orai_staking_hub {
        config.orai_staking_hub = orai_staking_hub;
    }
    if let Some(orai_staking_reward) = orai_staking_reward {
        config.orai_staking_reward = orai_staking_reward;
    }
    if let Some(orai_staking_denom) = orai_staking_denom {
        config.orai_staking_denom = orai_staking_denom;
    }
    Ok(Response::action("update_config"))
}

/// Model of the configuration after a state-changing call of the owner.
pub open spec fn executed_config_view(config: ConfigView, msg: ExecuteMsgView) -> ConfigView {
    match msg {
        ExecuteMsgView::UpdateConfig {
            owner,
            orai_staking_hub,
            orai_staking_reward,
            orai_staking_denom,
        } => updated_config_view(
            config,
            owner,
            orai_staking_hub,
            orai_staking_reward,
            orai_staking_denom,
        ),
    }
}

/// Runs a state-changing call. Only the owner may: for any other caller the configuration
/// stays as it was.
pub fn execute(config: &mut Config, env: Env, info: MessageInfo, msg: ExecuteMsg) -> (r: Result<
    Response,
    ContractError,
>)
    ensures
        info.sender@ != old(config).owner@ ==> {
            &&& result_view(r) == Err::<ResponseView, ContractErrorView>(
                ContractErrorView::Unauthorized {  },
            )
            &&& final(config).deep_view() == old(config).deep_view()
        },
        info.sender@ == old(config).owner@ ==> {
            &&& result_view(r) == Ok::<ResponseView, ContractErrorView>(
                action_response_view("update_config"@),
            )
            &&& final(config).deep_view() == executed_config_view(
                old(config).deep_view(),
                msg.deep_view(),
            )
        },
{
    match msg {
        ExecuteMsg::UpdateConfig {
            owner,
            orai_staking_hub,
            orai_staking_reward,
            orai_staking_denom,
        } => execute_update_config(
            config,
            env,
            info,
            owner,
            orai_staking_hub,
            orai_staking_reward,
            orai_staking_denom,
        ),
    }
}

/// Model of [`query_config`].
pub open spec fn config_response_view(config: ConfigView) -> ConfigResponseView {
    ConfigResponseView {
        owner: config.owner,
        orai_staking_hub: config.orai_staking_hub,
        orai_staking_reward: config.orai_staking_reward,
        orai_staking_denom: config.orai_staking_denom,
    }
}

/// The configuration, as it is read out.
pub fn query_config(config: &Config, _env: Env) -> (r: StdResult<ConfigResponse>)
    ensures
        result_view(r) == Ok::<ConfigResponseView, StdErrorView>(
            config_response_view(config.deep_view()),
        ),
{
    Ok(
        ConfigResponse {
            owner: config.owner.clone(),
            orai_staking_hub: config.orai_staking_hub.clone(),
            orai_staking_reward: config.orai_staking_reward.clone(),
            orai_staking_denom: config.orai_staking_denom.clone(),
        },
    )
}

/// Migration changes no state.
pub fn migrate(_env: Env, _msg: MigrateMsg) -> (r: StdResult<Response>)
    ensures
        result_view(r) == Ok::<ResponseView, StdErrorView>(empty_response_view()),
{
    Ok(Response::default())
}

/// Model of the error for a payload that the adapter does not compile.
pub open spec fn operations_not_found_view() -> StdErrorView {
    not_found_view("Operations not found"@)
}

/// Model of [`decode`].
pub open spec fn decode_view(candidate: Option<StakingOperationsView>) -> Result<
    StakingOperationsView,
    StdErrorView,
> {
    match candidate {
        Some(operation) => Ok(operation),
        None => Err(operations_not_found_view()),
    }
}

/// The operation that a payload stands for. Fails where the schema did not parse it.
pub fn decode(candidate: Option<StakingOperations>) -> (r: StdResult<StakingOperations>)
    ensures
        result_view(r) == decode_view(candidate.deep_view()),
{
    match candidate {
        Some(operation) => Ok(operation),
        None => Err(StdError::not_found("Operations not found")),
    }
}

/// Model of [`compile`].
pub open spec fn compile_view(config: ConfigView, operation: StakingOperationsView) -> Result<
    StepView,
    StdErrorView,
> {
    match operation {
        StakingOperationsView::Bond { sender, bond_type, amount } => staking_bond_view(
            config,
            sender,
            bond_type,
            amount,
        ),
        StakingOperationsView::Unbond { executor_addr, sender, token, amount } => Ok(
            staking_unbond_view(config, executor_addr, sender, token, amount),
        ),
        StakingOperationsView::ClaimRewards { recipient } => Ok(
            StepView::Emit(staking_claim_rewards_view(config, recipient)),
        ),
        StakingOperationsView::Convert { executor_addr, sender, from_token, amount } => Ok(
            staking_convert_view(config, executor_addr, sender, from_token, amount),
        ),
        StakingOperationsView::WithdrawUnbonded { .. } => Err(operations_not_found_view()),
    }
}

/// Compiles a decoded operation: to its messages, or to the question whose answer fills its
/// open amount. The withdrawal of unbonded tokens is part of the schema, but the adapter
/// compiles none: it fails as a payload does that no schema parsed.
pub fn compile(config: &Config, env: Env, operation: StakingOperations) -> (r: StdResult<Step>)
    ensures
        result_view(r) == compile_view(config.deep_view(), operation.deep_view()),
{
    match operation {
        StakingOperations::Bond { sender, bond_type, amount } => query_orai_staking_bond_msg(
            config,
            env,
            sender,
            bond_type,
            amount,
        ),
        StakingOperations::Unbond { executor_addr, sender, token, amount } => {
            query_orai_staking_unbond_msg(config, env, executor_addr, sender, token, amount)
        },
        StakingOperations::ClaimRewards { recipient } => emit(
            query_orai_staking_claim_rewards_msg(config, env, recipient),
        ),
        StakingOperations::Convert { executor_addr, sender, from_token, amount } => {
            query_orai_staking_convert_msg(config, env, executor_addr, sender, from_token, amount)
        },
        StakingOperations::WithdrawUnbonded { .. } => Err(
            StdError::not_found("Operations not found"),
        ),
    }
}

/// Model of [`query`].
pub open spec fn query_view(config: ConfigView, msg: QueryMsgView) -> Result<
    QueryResponseView,
    StdErrorView,
> {
    match msg {
        QueryMsgView::Config {  } => Ok(QueryResponseView::Config(config_response_view(config))),
        QueryMsgView::Messages { msg } => match decode_view(msg) {
            Ok(operation) => match compile_view(config, operation) {
                Ok(step) => Ok(QueryResponseView::Messages(step)),
                Err(e) => Err(e),
            },
            Err(e) => Err(e),
        },
    }
}

/// Answers a read-only call. A payload that the schema parsed is compiled; one that it did
/// not parse fails the call.
pub fn query(config: &Config, env: Env, msg: QueryMsg) -> (r: StdResult<QueryResponse>)
    ensures
        result_view(r) == query_view(config.deep_view(), msg.deep_view()),
{
    match msg {
        QueryMsg::Config {  } => Ok(QueryResponse::Config(query_config(config, env)?)),
        QueryMsg::Messages { msg } => {
            let operation = decode(msg)?;
            Ok(QueryResponse::Messages(compile(config, env, operation)?))
        },
    }
}

/// An operation that was compiled to messages has at least one.
pub proof fn lemma_messages_never_empty(config: ConfigView, operation: StakingOperationsView)
    ensures
        match compile_view(config, operation) {
            Ok(StepView::Emit(messages)) => messages.len() >= 1,
            _ => true,
        },
{
}

/// Once the open amount of an operation is filled, no further question is asked: the
/// operation compiles to its messages or fails.
pub proof fn lemma_filled_operation_asks_nothing(
    config: ConfigView,
    operation: StakingOperationsView,
    amount: u128,
)
    ensures
        !(compile_view(config, operation.fill_amount(amount)) matches Ok(StepView::Ask(_))),
{
}

/// A bond that names neither its amount nor a sender is refused: no question is asked and no
/// message is built.
pub proof fn lemma_underspecified_operation_refused(config: ConfigView, bond_type: BondType)
    ensures
        compile_view(config, StakingOperationsView::Bond { sender: None, bond_type, amount: None })
            == Err::<StepView, StdErrorView>(underspecified_view()),
{
}

/// Model of [`pending_question`].
pub open spec fn pending_question_view(config: ConfigView, operation: StakingOperationsView) -> Option<
    StateQueryView,
> {
    asked_view(compile_view(config, operation))
}

/// The question that an operation puts to the chain as it stands: that for the state which
/// fills its open amount, where the amount is open and nothing refuses the operation first.
pub fn pending_question(config: &Config, operation: &StakingOperations) -> (r: Option<StateQuery>)
    ensures
        r.deep_view() == pending_question_view(config.deep_view(), operation.deep_view()),
{
    match operation {
        StakingOperations::Bond { sender, amount, .. } => match asked_party(sender, amount) {
            Some(party) => Some(
                StateQuery::NativeBalance {
                    account: party,
                    denom: config.orai_staking_denom.clone(),
                },
            ),
            None => None,
        },
        StakingOperations::Unbond { sender, token, amount, .. } => match amount {
            Some(_) => None,
            None => Some(query_token_balance(token.clone(), sender.clone())),
        },
        StakingOperations::Convert { sender, from_token, amount, .. } => match amount {
            Some(_) => None,
            None => Some(query_token_balance(from_token.clone(), sender.clone())),
        },
        StakingOperations::ClaimRewards { .. } => None,
        StakingOperations::WithdrawUnbonded { .. } => None,
    }
}

/// Model of [`resume`].
pub open spec fn resume_view(
    config: ConfigView,
    operation: StakingOperationsView,
    question: StateQueryView,
    answer: StateAnswerView,
) -> Result<Seq<CosmosMsgView>, StdErrorView> {
    if pending_question_view(config, operation) == Some(question) {
        match answer_amount_view(question, answer) {
            Ok(amount) => finished_view(compile_view(config, operation.fill_amount(amount))),
            Err(e) => Err(e),
        }
    } else {
        Err(unasked_view())
    }
}

/// Compiles an operation that asked `question`, now that the chain has answered: the amount
/// that the answer is worth fills the open amount of the operation, and the operation
/// compiles to its messages. Fails where `question` is not what the operation asks, and where
/// the answer is worth no amount.
pub fn resume(
    config: &Config,
    env: Env,
    operation: StakingOperations,
    question: &StateQuery,
    answer: &StateAnswer,
) -> (r: StdResult<Vec<CosmosMsg>>)
    ensures
        result_view(r) == resume_view(
            config.deep_view(),
            operation.deep_view(),
            question.deep_view(),
            answer.deep_view(),
        ),
{
    match pending_question(config, &operation) {
        Some(asked) => {
            if !asked.same(question) {
                return Err(unasked());
            }
        },
        None => {
            return Err(unasked());
        },
    }
    let amount = answer_amount(question, answer)?;
    finished(compile(config, env, operation.fill_amount(amount)))
}

/// An operation that is resumed with the answer to its own question never ends on a
/// question: it has the messages of the operation with its amount filled, or it fails as that
/// operation does. Resumed with any other question it fails.
pub proof fn lemma_resumed_operation_is_finished(
    config: ConfigView,
    operation: StakingOperationsView,
    question: StateQueryView,
    answer: StateAnswerView,
)
    ensures
        pending_question_view(config, operation) != Some(question) ==> resume_view(
            config,
            operation,
            question,
            answer,
        ) == Err::<Seq<CosmosMsgView>, StdErrorView>(unasked_view()),
        pending_question_view(config, operation) == Some(question) ==> (answer_amount_view(
            question,
            answer,
        ) matches Ok(amount) ==> match compile_view(config, operation.fill_amount(amount)) {
            Ok(StepView::Emit(messages)) => resume_view(config, operation, question, answer)
                == Ok::<Seq<CosmosMsgView>, StdErrorView>(messages),
            Ok(StepView::Ask(_)) => false,
            Err(e) => resume_view(config, operation, question, answer) == Err::<
                Seq<CosmosMsgView>,
                StdErrorView,
            >(e),
        }),
{
    if let Ok(amount) = answer_amount_view(question, answer) {
        lemma_filled_operation_asks_nothing(config, operation, amount);
    }
}

} // verus!
