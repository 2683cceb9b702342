//! Entry points of the utility adapter.

use crate::decoder::first_accepting;
use crate::gateway::{
    StateAnswer,
    StateAnswerView,
    StateQuery,
    StateQueryView,
    Step,
    StepView,
    answer_amount,
    answer_amount_view,
    asked_view,
    finished,
    finished_view,
    unasked,
    unasked_view,
};
use crate::resolver::{asked_party, underspecified_view};
use crate::types::{
    Addr,
    ContractError,
    ContractErrorView,
    CosmosMsg,
    CosmosMsgView,
    Env,
    MessageInfo,
    Response,
    ResponseView,
    StdError,
    StdErrorView,
    StdResult,
    action_response_view,
    empty_response_view,
    not_found_view,
    overridden,
    result_view,
};
use crate::utility::querier::query_token_balance;
use crate::utility_operations::chain::{
    delegate_view,
    query_delegate_msg,
    query_undelegate_msg,
    undelegate_view,
};
use crate::utility_operations::msg::{
    Candidates,
    CandidatesView,
    ChainOperations,
    ChainOperationsView,
    ConfigResponse,
    ConfigResponseView,
    ExecuteMsg,
    ExecuteMsgView,
    InstantiateMsg,
    InstantiateMsgView,
    MigrateMsg,
    Operation,
    OperationView,
    QueryMsg,
    QueryMsgView,
    QueryResponse,
    QueryResponseView,
    TokenOperations,
    TokenOperationsView,
    WrappedOperations,
    WrappedOperationsView,
};
use crate::utility_operations::state::{Config, ConfigView};
use crate::utility_operations::tokens::{
    query_token_send_from_msg,
    query_token_send_msg,
    query_token_transfer_from_msg,
    query_token_transfer_msg,
    token_send_from_view,
    token_send_raw_view,
    token_transfer_from_view,
    token_transfer_view,
};
use crate::utility_operations::wrapped::{
    convert_to_cw20_view,
    convert_to_denom_view,
    query_wrapped_convert_to_cw20,
    query_wrapped_convert_to_denom,
};
use vstd::prelude::*;

verus! {

/// Model of the configuration that an adapter starts with.
pub open spec fn initial_config_view(msg: InstantiateMsgView) -> ConfigView {
    ConfigView {
        owner: msg.owner,
        wrapped_contract: msg.wrapped_contract,
    }
}

/// Sets the adapter up: the configuration to keep, and an empty response.
pub fn instantiate(_env: Env, _info: MessageInfo, msg: InstantiateMsg) -> (r: Result<
    (Config, Response),
    ContractError,
>)
    ensures
        result_view(r) == Ok::<(ConfigView, ResponseView), ContractErrorView>(
            (initial_config_view(msg.deep_view()), empty_response_view()),
        ),
{
    let config = Config {
        owner: msg.owner,
        wrapped_contract: msg.wrapped_contract,
    };
    Ok((config, Response::default()))
}

/// Model of the configuration after an update.
pub open spec fn updated_config_view(
    config: ConfigView,
    owner: Option<Seq<char>>,
    wrapped_contract: Option<Seq<char>>,
) -> ConfigView {
    ConfigView {
        owner: overridden(config.owner, owner),
        wrapped_contract: overridden(config.wrapped_contract, wrapped_contract),
    }
}

/// Overrides the fields of the configuration that are given. Only the owner may: for any
/// other caller the configuration stays as it was.
pub fn execute_update_config(
    config: &mut Config,
    info: MessageInfo,
    owner: Option<Addr>,
    wrapped_contract: Option<Addr>,
) -> (r: Result<Response, ContractError>)
    ensures
        info.sender@ != old(config).owner@ ==> {
            &&& result_view(r) == Err::<ResponseView, ContractErrorView>(
                ContractErrorView::Unauthorized {  },
            )
            &&& final(config).deep_view() == old(config).deep_view()
        },
        info.sender@ == old(config).owner@ ==> {
            &&& result_view(r) == Ok::<ResponseView, ContractErrorView>(
                action_response_view("update_config"@),
            )
            &&& final(config).deep_view() == updated_config_view(
                old(config).deep_view(),
                owner.deep_view(),
                wrapped_contract.deep_view(),
            )
        },
{
    if config.owner != info.sender {
        return Err(ContractError::Unauthorized {  });
    }
    if let Some(owner) = owner {
        config.owner = owner;
    }
    if let Some(wrapped_contract) = wrapped_contract {
        config.wrapped_contract = wrapped_contract;
    }
    Ok(Response::action("update_config"))
}

/// Model of the configuration after a state-changing call of the owner.
pub open spec fn executed_config_view(config: ConfigView, msg: ExecuteMsgView) -> ConfigView {
    match msg {
        ExecuteMsgView::UpdateConfig { owner, wrapped_contract } => updated_config_view(
            config,
            owner,
            wrapped_contract,
        ),
    }
}

/// Runs a state-changing call. Only the owner may: for any other caller the configuration
/// stays as it was.
pub fn execute(config: &mut Config, _env: Env, info: MessageInfo, msg: ExecuteMsg) -> (r: Result<
    Response,
    ContractError,
>)
    ensures
        info.sender@ != old(config).owner@ ==> {
            &&& result_view(r) == Err::<ResponseView, ContractErrorView>(
                ContractErrorView::Unauthorized {  },
            )
            &&& final(config).deep_view() == old(config).deep_view()
        },
        info.sender@ == old(config).owner@ ==> {
            &&& result_view(r) == Ok::<ResponseView, ContractErrorView>(
                action_response_view("update_config"@),
            )
            &&& final(config).deep_view() == executed_config_view(
                old(config).deep_view(),
                msg.deep_view(),
            )
        },
{
    match msg {
        ExecuteMsg::UpdateConfig { owner, wrapped_contract } => execute_update_config(
            config,
            info,
            owner,
            wrapped_contract,
        ),
    }
}

/// Model of [`query_config`].
pub open spec fn config_response_view(config: ConfigView) -> ConfigResponseView {
    ConfigResponseView {
        owner: config.owner,
    }
}

/// The configuration, as it is read out.
pub fn query_config(config: &Config) -> (r: StdResult<ConfigResponse>)
    ensures
        result_view(r) == Ok::<ConfigResponseView, StdErrorView>(
            config_response_view(config.deep_view()),
        ),
{
    Ok(
        ConfigResponse {
            owner: config.owner.clone(),
        },
    )
}

/// Migration changes no state.
pub fn migrate(_env: Env, _msg: MigrateMsg) -> (r: StdResult<Response>)
    ensures
        result_view(r) == Ok::<ResponseView, StdErrorView>(empty_response_view()),
{
    Ok(Response::default())
}

/// Model of the error for a payload that no schema of the adapter accepts.
pub open spec fn operations_not_found_view() -> StdErrorView {
    not_found_view("Operations not found"@)
}

/// Model of [`decode`]: the schemas in their order are token, wrapped, chain, and the first
/// that parsed the payload gives the operation.
pub open spec fn decode_view(candidates: CandidatesView) -> Result<OperationView, StdErrorView> {
    if candidates.token is Some {
        Ok(OperationView::Token(candidates.token->0))
    } else if candidates.wrapped is Some {
        Ok(OperationView::Wrapped(candidates.wrapped->0))
    } else if candidates.chain is Some {
        Ok(OperationView::Chain(candidates.chain->0))
    } else {
        Err(operations_not_found_view())
    }
}

/// The operation that a payload stands for: that of the first schema, in the adapter's order,
/// that parsed it. Fails where none did.
pub fn decode(candidates: Candidates) -> (r: StdResult<Operation>)
    ensures
        result_view(r) == decode_view(candidates.deep_view()),
{
    let mut accepted: Vec<bool> = Vec::new();
    accepted.push(candidates.token.is_some());
    accepted.push(candidates.wrapped.is_some());
    accepted.push(candidates.chain.is_some());
    assert(accepted@ =~= seq![
        candidates.token is Some,
        candidates.wrapped is Some,
        candidates.chain is Some,
    ]);
    let first = first_accepting(&accepted);
    let Candidates { token, wrapped, chain } = candidates;
    match (first, token, wrapped, chain) {
        (Some(0), Some(op), _, _) => Ok(Operation::Token(op)),
        (Some(1), _, Some(op), _) => Ok(Operation::Wrapped(op)),
        (Some(2), _, _, Some(op)) => Ok(Operation::Chain(op)),
        _ => Err(StdError::not_found("Operations not found")),
    }
}

/// A payload that an earlier schema parses is never read under a later one: what parses as a
/// token operation is one, whatever else parses it; what parses as a wrapped operation and not
/// as a token operation is one; and a chain operation is what only the last schema parses.
pub proof fn lemma_schema_priority(candidates: CandidatesView)
    ensures
        candidates.token is Some ==> decode_view(candidates) == Ok::<OperationView, StdErrorView>(
            OperationView::Token(candidates.token->0),
        ),
        candidates.token is None && candidates.wrapped is Some ==> decode_view(candidates) == Ok::<
            OperationView,
            StdErrorView,
        >(OperationView::Wrapped(candidates.wrapped->0)),
        decode_view(candidates) is Err <==> candidates.token is None && candidates.wrapped is None
            && candidates.chain is None,
{
}

/// Model of [`compile`].
pub open spec fn compile_view(config: ConfigView, operation: OperationView) -> Result<
    StepView,
    StdErrorView,
> {
    match operation {
        OperationView::Token(op) => match op {
            TokenOperationsView::TokenTransfer { token, sender, recipient, amount } => {
                token_transfer_view(token, sender, recipient, amount)
            },
            TokenOperationsView::TokenTransferFrom { token, owner, recipient, amount } => Ok(
                token_transfer_from_view(token, owner, recipient, amount),
            ),
            TokenOperationsView::TokenSend { token, sender, contract, amount, msg } => {
                token_send_raw_view(token, sender, contract, amount, msg)
            },
            TokenOperationsView::TokenSendFrom { token, owner, contract, amount, msg } => Ok(
                token_send_from_view(token, owner, contract, amount, msg),
            ),
        },
        OperationView::Wrapped(op) => match op {
            WrappedOperationsView::ConvertToCw20 { from_denom, executor_addr, amount } => Ok(
                convert_to_cw20_view(config, from_denom, executor_addr, amount),
            ),
            WrappedOperationsView::ConvertToDenom {
                from_token,
                target_denom,
                executor_addr,
                sender,
                amount,
            } => Ok(
                convert_to_denom_view(
                    config,
                    from_token,
                    target_denom,
                    executor_addr,
                    sender,
                    amount,
                ),
            ),
        },
        OperationView::Chain(op) => match op {
            ChainOperationsView::ChainDelegate { executor_addr, validator, denom, amount } => Ok(
                delegate_view(executor_addr, validator, denom, amount),
            ),
            ChainOperationsView::ChainUndelegate { executor_addr, validator, denom, amount } => Ok(
                undelegate_view(executor_addr, validator, denom, amount),
            ),
        },
    }
}

/// Compiles a decoded operation: to its messages, or to the question whose answer fills its
/// open amount.
pub fn compile(config: &Config, operation: Operation) -> (r: StdResult<Step>)
    ensures
        result_view(r) == compile_view(config.deep_view(), operation.deep_view()),
{
    match operation {
        Operation::Token(op) => match op {
            TokenOperations::TokenTransfer { token, sender, recipient, amount } => {
                query_token_transfer_msg(token, sender, recipient, amount)
            },
            TokenOperations::TokenTransferFrom { token, owner, recipient, amount } => {
                query_token_transfer_from_msg(token, owner, recipient, amount)
            },
            TokenOperations::TokenSend { token, sender, contract, amount, msg } => {
                query_token_send_msg(token, sender, contract, amount, msg)
            },
            TokenOperations::TokenSendFrom { token, owner, contract, amount, msg } => {
                query_token_send_from_msg(token, owner, contract, amount, msg)
            },
        },
        Operation::Wrapped(op) => match op {
            WrappedOperations::ConvertToCw20 { from_denom, executor_addr, amount } => {
                query_wrapped_convert_to_cw20(config, from_denom, executor_addr, amount)
            },
            WrappedOperations::ConvertToDenom {
                from_token,
                target_denom,
                executor_addr,
                sender,
                amount,
            } => query_wrapped_convert_to_denom(
                config,
                from_token,
                target_denom,
                executor_addr,
                sender,
                amount,
            ),
        },
        Operation::Chain(op) => match op {
            ChainOperations::ChainDelegate { executor_addr, validator, denom, amount } => {
                query_delegate_msg(executor_addr, validator, denom, amount)
            },
            ChainOperations::ChainUndelegate { executor_addr, validator, denom, amount } => {
                query_undelegate_msg(executor_addr, validator, denom, amount)
            },
        },
    }
}

/// Model of [`query`].
pub open spec fn query_view(config: ConfigView, msg: QueryMsgView) -> Result<
    QueryResponseView,
    StdErrorView,
> {
    match msg {
        QueryMsgView::Config {  } => Ok(QueryResponseView::Config(config_response_view(config))),
        QueryMsgView::Messages { msg } => match decode_view(msg) {
            Ok(operation) => match compile_view(config, operation) {
                Ok(step) => Ok(QueryResponseView::Messages(step)),
                Err(e) => Err(e),
            },
            Err(e) => Err(e),
        },
    }
}

/// Answers a read-only call. A payload is decoded under the first schema that parsed it and
/// compiled; where no schema parsed it, the call fails.
pub fn query(config: &Config, _env: Env, msg: QueryMsg) -> (r: StdResult<QueryResponse>)
    ensures
        result_view(r) == query_view(config.deep_view(), msg.deep_view()),
{
    match msg {
        QueryMsg::Config {  } => Ok(QueryResponse::Config(query_config(config)?)),
        QueryMsg::Messages { msg } => {
            let operation = decode(msg)?;
            Ok(QueryResponse::Messages(compile(config, operation)?))
        },
    }
}

/// An operation that was compiled to messages has at least one.
pub proof fn lemma_messages_never_empty(config: ConfigView, operation: OperationView)
    ensures
        match compile_view(config, operation) {
            Ok(StepView::Emit(messages)) => messages.len() >= 1,
            _ => true,
        },
{
}

/// Once the open amount of an operation is filled, no further question is asked: the
/// operation compiles to its messages or fails.
pub proof fn lemma_filled_operation_asks_nothing(
    config: ConfigView,
    operation: OperationView,
    amount: u128,
)
    ensures
        !(compile_view(config, operation.fill_amount(amount)) matches Ok(StepView::Ask(_))),
{
}

/// A token move that names neither its amount nor a sender is refused: no question is asked
/// and no message is built.
pub proof fn lemma_underspecified_operation_refused(
    config: ConfigView,
    token: Seq<char>,
    target: Seq<char>,
    msg: Seq<u8>,
)
    ensures
        compile_view(
            config,
            OperationView::Token(
                TokenOperationsView::TokenTransfer {
                    token,
                    sender: None,
                    recipient: target,
                    amount: None,
                },
            ),
        ) == Err::<StepView, StdErrorView>(underspecified_view()),
        compile_view(
            config,
            OperationView::Token(
                TokenOperationsView::TokenSend {
                    token,
                    sender: None,
                    contract: target,
                    amount: None,
                    msg,
                },
            ),
        ) == Err::<StepView, StdErrorView>(underspecified_view()),
{
}

/// Model of [`pending_question`].
pub open spec fn pending_question_view(config: ConfigView, operation: OperationView) -> Option<
    StateQueryView,
> {
    asked_view(compile_view(config, operation))
}

/// The question that an operation puts to the chain as it stands: that for the state which
/// fills its open amount, where the amount is open and nothing refuses the operation first.
pub fn pending_question(config: &Config, operation: &Operation) -> (r: Option<StateQuery>)
    ensures
        r.deep_view() == pending_question_view(config.deep_view(), operation.deep_view()),
{
    match operation {
        Operation::Token(op) => match op {
            TokenOperations::TokenTransfer { token, sender, amount, .. } => match asked_party(
                sender,
                amount,
            ) {
                Some(party) => Some(query_token_balance(token.clone(), party)),
                None => None,
            },
            TokenOperations::TokenTransferFrom { token, owner, amount, .. } => match amount {
                Some(_) => None,
                None => Some(query_token_balance(token.clone(), owner.clone())),
            },
            TokenOperations::TokenSend { token, sender, amount, .. } => match asked_party(
                sender,
                amount,
            ) {
                Some(party) => Some(query_token_balance(token.clone(), party)),
                None => None,
            },
            TokenOperations::TokenSendFrom { token, owner, amount, .. } => match amount {
                Some(_) => None,
                None => Some(query_token_balance(token.clone(), owner.clone())),
            },
        },
        Operation::Wrapped(op) => match op {
            WrappedOperations::ConvertToDenom { from_token, sender, amount, .. } => match amount {
                Some(_) => None,
                None => Some(query_token_balance(from_token.clone(), sender.clone())),
            },
            WrappedOperations::ConvertToCw20 { from_denom, executor_addr, amount } => match amount {
                Some(_) => None,
                None => Some(
                    StateQuery::NativeBalance {
                        account: executor_addr.clone(),
                        denom: from_denom.clone(),
                    },
                ),
            },
        },
        Operation::Chain(op) => match op {
            ChainOperations::ChainDelegate { executor_addr, denom, amount, .. } => match amount {
                Some(_) => None,
                None => Some(
                    StateQuery::NativeBalance {
                        account: executor_addr.clone(),
                        denom: denom.clone(),
                    },
                ),
            },
            ChainOperations::ChainUndelegate { executor_addr, validator, amount, .. } => {
                match amount {
                    Some(_) => None,
                    None => Some(
                        StateQuery::Delegation {
                            delegator: executor_addr.clone(),
                            validator: validator.clone(),
                        },
                    ),
                }
            },
        },
    }
}

/// Model of [`resume`].
pub open spec fn resume_view(
    config: ConfigView,
    operation: OperationView,
    question: StateQueryView,
    answer: StateAnswerView,
) -> Result<Seq<CosmosMsgView>, StdErrorView> {
    if pending_question_view(config, operation) == Some(question) {
        match answer_amount_view(question, answer) {
            Ok(amount) => finished_view(compile_view(config, operation.fill_amount(amount))),
            Err(e) => Err(e),
        }
    } else {
        Err(unasked_view())
    }
}

/// Compiles an operation that asked `question`, now that the chain has answered: the amount
/// that the answer is worth fills the open amount of the operation, and the operation
/// compiles to its messages. Fails where `question` is not what the operation asks, and where
/// the answer is worth no amount.
pub fn resume(
    config: &Config,
    operation: Operation,
    question: &StateQuery,
    answer: &StateAnswer,
) -> (r: StdResult<Vec<CosmosMsg>>)
    ensures
        result_view(r) == resume_view(
            config.deep_view(),
            operation.deep_view(),
            question.deep_view(),
            answer.deep_view(),
        ),
{
    match pending_question(config, &operation) {
        Some(asked) => {
            if !asked.same(question) {
                return Err(unasked());
            }
        },
        None => {
            return Err(unasked());
        },
    }
    let amount = answer_amount(question, answer)?;
    finished(compile(config, operation.fill_amount(amount)))
}

/// An operation that is resumed with the answer to its own question never ends on a
/// question: it has the messages of the operation with its amount filled, or it fails as that
/// operation does. Resumed with any other question it fails.
pub proof fn lemma_resumed_operation_is_finished(
    config: ConfigView,
    operation: OperationView,
    question: StateQueryView,
    answer: StateAnswerView,
)
    ensures
        pending_question_view(config, operation) != Some(question) ==> resume_view(
            config,
            operation,
            question,
            answer,
        ) == Err::<Seq<CosmosMsgView>, StdErrorView>(unasked_view()),
        pending_question_view(config, operation) == Some(question) ==> (answer_amount_view(
            question,
            answer,
        ) matches Ok(amount) ==> match compile_view(config, operation.fill_amount(amount)) {
            Ok(StepView::Emit(messages)) => resume_view(config, operation, question, answer)
                == Ok::<Seq<CosmosMsgView>, StdErrorView>(messages),
            Ok(StepView::Ask(_)) => false,
            Err(e) => resume_view(config, operation, question, answer) == Err::<
                Seq<CosmosMsgView>,
                StdErrorView,
            >(e),
        }),
{
    if let Ok(amount) = answer_amount_view(question, answer) {
        lemma_filled_operation_asks_nothing(config, operation, amount);
    }
}

} // verus!
