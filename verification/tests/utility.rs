use wallet_operations::cw20::Cw20ExecuteMsg;
use wallet_operations::gateway::{StateAnswer, StateQuery, Step};
use wallet_operations::payload::{ExecutePayload, ProtocolMsg};
use wallet_operations::types::{
    Attribute, BlockInfo, Coin, ContractError, CosmosMsg, Env, MessageInfo, Response, StakingMsg,
    StdError, Timestamp, WasmMsg,
};
use wallet_operations::utility::querier::query_token_balance;
use wallet_operations::utility::wrapped::WrappedExecuteMsg;
use wallet_operations::utility_operations::chain::{query_delegate_msg, query_undelegate_msg};
use wallet_operations::utility_operations::contract::{
    compile, decode, execute, execute_update_config, instantiate, migrate, pending_question, query,
    query_config, resume,
};
use wallet_operations::utility_operations::msg::{
    Candidates, ChainOperations, ConfigResponse, ExecuteMsg, InstantiateMsg, MigrateMsg, Operation,
    QueryMsg, QueryResponse, TokenOperations, WrappedOperations,
};
use wallet_operations::utility_operations::state::Config;
use wallet_operations::utility_operations::tokens::{
    query_token_send_from_msg, query_token_send_msg, query_token_transfer_from_msg,
    query_token_transfer_msg,
};
use wallet_operations::utility_operations::wrapped::{
    query_wrapped_convert_to_cw20, query_wrapped_convert_to_denom,
};

fn s(text: &str) -> String {
    text.to_string()
}

fn env() -> Env {
    Env { block: BlockInfo { time: Timestamp { nanos: 1 } } }
}

fn config() -> Config {
    Config { owner: s("owner"), wrapped_contract: s("wrapper") }
}

fn token_msg(token: &str, msg: Cw20ExecuteMsg) -> CosmosMsg {
    CosmosMsg::Wasm(WasmMsg::Execute {
        contract_addr: s(token),
        msg: ExecutePayload::Cw20(msg),
        funds: vec![],
    })
}

fn balance_of(token: &str, account: &str) -> Result<Step, StdError> {
    Ok(Step::Ask(StateQuery::TokenBalance { token: s(token), account: s(account) }))
}

fn underspecified() -> StdError {
    StdError::GenericErr { msg: s("Sender and amount is none!!!") }
}

fn none() -> Candidates {
    Candidates { token: None, wrapped: None, chain: None }
}

#[test]
fn token_transfer() {
    assert_eq!(
        query_token_transfer_msg(s("token"), None, s("bob"), Some(3)),
        Ok(Step::Emit(vec![token_msg("token", Cw20ExecuteMsg::Transfer { recipient: s("bob"), amount: 3 })]))
    );
    assert_eq!(query_token_transfer_msg(s("token"), Some(s("alice")), s("bob"), None), balance_of("token", "alice"));
    assert_eq!(query_token_transfer_msg(s("token"), None, s("bob"), None), Err(underspecified()));
}

#[test]
fn token_transfer_from() {
    assert_eq!(
        query_token_transfer_from_msg(s("token"), s("alice"), s("bob"), Some(3)),
        Ok(Step::Emit(vec![token_msg(
            "token",
            Cw20ExecuteMsg::TransferFrom { owner: s("alice"), recipient: s("bob"), amount: 3 },
        )]))
    );
    assert_eq!(query_token_transfer_from_msg(s("token"), s("alice"), s("bob"), None), balance_of("token", "alice"));
}

#[test]
fn token_send() {
    assert_eq!(
        query_token_send_msg(s("token"), Some(s("alice")), s("vault"), Some(3), vec![b'{', b'}']),
        Ok(Step::Emit(vec![token_msg(
            "token",
            Cw20ExecuteMsg::Send { contract: s("vault"), amount: 3, msg: ProtocolMsg::Raw(vec![b'{', b'}']) },
        )]))
    );
    assert_eq!(query_token_send_msg(s("token"), Some(s("alice")), s("vault"), None, vec![]), balance_of("token", "alice"));
    assert_eq!(query_token_send_msg(s("token"), None, s("vault"), None, vec![]), Err(underspecified()));
}

#[test]
fn token_send_from() {
    assert_eq!(
        query_token_send_from_msg(s("token"), s("alice"), s("vault"), Some(3), vec![1, 2]),
        Ok(Step::Emit(vec![token_msg(
            "token",
            Cw20ExecuteMsg::SendFrom {
                owner: s("alice"),
                contract: s("vault"),
                amount: 3,
                msg: ProtocolMsg::Raw(vec![1, 2]),
            },
        )]))
    );
    assert_eq!(query_token_send_from_msg(s("token"), s("alice"), s("vault"), None, vec![]), balance_of("token", "alice"));
}

#[test]
fn convert_to_denom_with_and_without_a_hop() {
    let convert = ProtocolMsg::Wrapped(WrappedExecuteMsg::ConvertToDenom { target_denom: s("orai") });
    let send = token_msg("worai", Cw20ExecuteMsg::Send { contract: s("wrapper"), amount: 3, msg: convert });
    let hop = token_msg("worai", Cw20ExecuteMsg::TransferFrom { owner: s("alice"), recipient: s("bob"), amount: 3 });
    assert_eq!(
        query_wrapped_convert_to_denom(&config(), s("worai"), s("orai"), s("bob"), s("alice"), Some(3)),
        Ok(Step::Emit(vec![hop, send.clone()]))
    );
    assert_eq!(
        query_wrapped_convert_to_denom(&config(), s("worai"), s("orai"), s("bob"), s("bob"), Some(3)),
        Ok(Step::Emit(vec![send]))
    );
    assert_eq!(
        query_wrapped_convert_to_denom(&config(), s("worai"), s("orai"), s("bob"), s("alice"), None),
        balance_of("worai", "alice")
    );
}

#[test]
fn convert_to_cw20_attaches_the_native_tokens() {
    assert_eq!(
        query_wrapped_convert_to_cw20(&config(), s("orai"), s("bob"), Some(3)),
        Ok(Step::Emit(vec![CosmosMsg::Wasm(WasmMsg::Execute {
            contract_addr: s("wrapper"),
            msg: ExecutePayload::Protocol(ProtocolMsg::Wrapped(WrappedExecuteMsg::ConvertToCw20 {})),
            funds: vec![Coin { denom: s("orai"), amount: 3 }],
        })]))
    );
    assert_eq!(
        query_wrapped_convert_to_cw20(&config(), s("orai"), s("bob"), None),
        Ok(Step::Ask(StateQuery::NativeBalance { account: s("bob"), denom: s("orai") }))
    );
}

#[test]
fn delegate_and_undelegate() {
    assert_eq!(
        query_delegate_msg(s("bob"), s("val"), s("orai"), Some(3)),
        Ok(Step::Emit(vec![CosmosMsg::Staking(StakingMsg::Delegate {
            validator: s("val"),
            amount: Coin { denom: s("orai"), amount: 3 },
        })]))
    );
    assert_eq!(
        query_delegate_msg(s("bob"), s("val"), s("orai"), None),
        Ok(Step::Ask(StateQuery::NativeBalance { account: s("bob"), denom: s("orai") }))
    );
    assert_eq!(
        query_undelegate_msg(s("bob"), s("val"), s("orai"), Some(3)),
        Ok(Step::Emit(vec![CosmosMsg::Staking(StakingMsg::Undelegate {
            validator: s("val"),
            amount: Coin { denom: s("orai"), amount: 3 },
        })]))
    );
    assert_eq!(
        query_undelegate_msg(s("bob"), s("val"), s("orai"), None),
        Ok(Step::Ask(StateQuery::Delegation { delegator: s("bob"), validator: s("val") }))
    );
}

#[test]
fn undelegate_all_that_is_delegated() {
    let operation = Operation::Chain(ChainOperations::ChainUndelegate {
        executor_addr: s("bob"),
        validator: s("val"),
        denom: s("orai"),
        amount: None,
    });
    let asked = match compile(&config(), operation.clone()) {
        Ok(Step::Ask(question)) => question,
        other => panic!("unexpected {:?}", other),
    };
    let answer = StateAnswer::Delegation(Some(Coin { denom: s("orai"), amount: 640 }));
    assert_eq!(
        resume(&config(), operation.clone(), &asked, &answer).map(Step::Emit),
        query_undelegate_msg(s("bob"), s("val"), s("orai"), Some(640))
    );
    assert_eq!(
        resume(&config(), operation, &asked, &StateAnswer::Delegation(None)),
        Err(StdError::NotFound { kind: s("Delegation") })
    );
}

#[test]
fn utility_resume_refuses_a_question_that_the_operation_does_not_ask() {
    let unasked = Err(StdError::GenericErr { msg: s("The operation does not ask this question") });
    let operation = Operation::Chain(ChainOperations::ChainUndelegate {
        executor_addr: s("bob"),
        validator: s("val"),
        denom: s("orai"),
        amount: None,
    });
    let of_another = StateQuery::Delegation { delegator: s("bob"), validator: s("val2") };
    let answer = StateAnswer::Delegation(Some(Coin { denom: s("orai"), amount: 640 }));
    assert_eq!(resume(&config(), operation.clone(), &of_another, &answer), unasked);
    let balance = StateQuery::NativeBalance { account: s("bob"), denom: s("orai") };
    assert_eq!(resume(&config(), operation, &balance, &StateAnswer::Balance(1)), unasked);
}

#[test]
fn utility_pending_question_is_what_compile_asks() {
    let cases = vec![
        Operation::Token(TokenOperations::TokenTransfer { token: s("t"), sender: Some(s("a")), recipient: s("b"), amount: None }),
        Operation::Token(TokenOperations::TokenTransfer { token: s("t"), sender: None, recipient: s("b"), amount: None }),
        Operation::Token(TokenOperations::TokenTransferFrom { token: s("t"), owner: s("a"), recipient: s("b"), amount: None }),
        Operation::Token(TokenOperations::TokenSend { token: s("t"), sender: Some(s("a")), contract: s("c"), amount: None, msg: vec![] }),
        Operation::Token(TokenOperations::TokenSendFrom { token: s("t"), owner: s("a"), contract: s("c"), amount: Some(1), msg: vec![] }),
        Operation::Token(TokenOperations::TokenSendFrom { token: s("t"), owner: s("a"), contract: s("c"), amount: None, msg: vec![] }),
        Operation::Wrapped(WrappedOperations::ConvertToDenom { from_token: s("t"), target_denom: s("orai"), executor_addr: s("b"), sender: s("a"), amount: None }),
        Operation::Wrapped(WrappedOperations::ConvertToCw20 { from_denom: s("orai"), executor_addr: s("b"), amount: None }),
        Operation::Chain(ChainOperations::ChainDelegate { executor_addr: s("b"), validator: s("v"), denom: s("orai"), amount: None }),
        Operation::Chain(ChainOperations::ChainUndelegate { executor_addr: s("b"), validator: s("v"), denom: s("orai"), amount: None }),
    ];
    let mut asked = 0;
    for operation in cases {
        let expected = match compile(&config(), operation.clone()) {
            Ok(Step::Ask(question)) => Some(question),
            _ => None,
        };
        if expected.is_some() {
            asked += 1;
        }
        assert_eq!(pending_question(&config(), &operation), expected);
    }
    assert_eq!(asked, 8);
}

#[test]
fn utility_decode_takes_the_first_schema_that_parsed() {
    let token = TokenOperations::TokenTransfer { token: s("t"), sender: None, recipient: s("b"), amount: Some(1) };
    let wrapped = WrappedOperations::ConvertToCw20 { from_denom: s("orai"), executor_addr: s("b"), amount: Some(1) };
    let chain = ChainOperations::ChainDelegate { executor_addr: s("b"), validator: s("v"), denom: s("orai"), amount: Some(1) };
    let all = Candidates { token: Some(token.clone()), wrapped: Some(wrapped.clone()), chain: Some(chain.clone()) };
    assert_eq!(decode(all.clone()), Ok(Operation::Token(token)));
    assert_eq!(decode(Candidates { token: None, ..all.clone() }), Ok(Operation::Wrapped(wrapped)));
    assert_eq!(decode(Candidates { chain: Some(chain.clone()), ..none() }), Ok(Operation::Chain(chain)));
    assert_eq!(decode(none()), Err(StdError::NotFound { kind: s("Operations not found") }));
}

#[test]
fn utility_decode_prefers_the_earlier_of_two_adjacent_schemas() {
    let wrapped = WrappedOperations::ConvertToCw20 { from_denom: s("orai"), executor_addr: s("b"), amount: None };
    let chain = ChainOperations::ChainUndelegate { executor_addr: s("b"), validator: s("v"), denom: s("orai"), amount: None };
    let ambiguous = Candidates { token: None, wrapped: Some(wrapped.clone()), chain: Some(chain) };
    assert_eq!(decode(ambiguous), Ok(Operation::Wrapped(wrapped)));
}

#[test]
fn utility_query_decodes_and_compiles() {
    let msg = QueryMsg::Messages {
        msg: Candidates {
            wrapped: Some(WrappedOperations::ConvertToCw20 { from_denom: s("orai"), executor_addr: s("bob"), amount: Some(3) }),
            ..none()
        },
    };
    assert_eq!(
        query(&config(), env(), msg),
        Ok(QueryResponse::Messages(
            query_wrapped_convert_to_cw20(&config(), s("orai"), s("bob"), Some(3)).unwrap()
        ))
    );
    assert_eq!(
        query(&config(), env(), QueryMsg::Messages { msg: none() }),
        Err(StdError::NotFound { kind: s("Operations not found") })
    );
    assert_eq!(
        query(&config(), env(), QueryMsg::Config {}),
        Ok(QueryResponse::Config(ConfigResponse { owner: s("owner") }))
    );
    assert_eq!(query_config(&config()), Ok(ConfigResponse { owner: s("owner") }));
}

#[test]
fn utility_compile_covers_every_operation() {
    let cases = vec![
        Operation::Token(TokenOperations::TokenTransfer { token: s("t"), sender: None, recipient: s("b"), amount: Some(1) }),
        Operation::Token(TokenOperations::TokenTransferFrom { token: s("t"), owner: s("a"), recipient: s("b"), amount: Some(1) }),
        Operation::Token(TokenOperations::TokenSend { token: s("t"), sender: None, contract: s("c"), amount: Some(1), msg: vec![] }),
        Operation::Token(TokenOperations::TokenSendFrom { token: s("t"), owner: s("a"), contract: s("c"), amount: Some(1), msg: vec![] }),
        Operation::Wrapped(WrappedOperations::ConvertToDenom { from_token: s("t"), target_denom: s("orai"), executor_addr: s("b"), sender: s("a"), amount: Some(1) }),
        Operation::Wrapped(WrappedOperations::ConvertToCw20 { from_denom: s("orai"), executor_addr: s("b"), amount: Some(1) }),
        Operation::Chain(ChainOperations::ChainDelegate { executor_addr: s("b"), validator: s("v"), denom: s("orai"), amount: Some(1) }),
        Operation::Chain(ChainOperations::ChainUndelegate { executor_addr: s("b"), validator: s("v"), denom: s("orai"), amount: Some(1) }),
    ];
    let sizes: Vec<usize> = cases
        .into_iter()
        .map(|op| match compile(&config(), op) {
            Ok(Step::Emit(list)) => list.len(),
            other => panic!("unexpected {:?}", other),
        })
        .collect();
    assert_eq!(sizes, vec![1, 1, 1, 1, 2, 1, 1, 1]);
}

#[test]
fn utility_fill_amount_fills_only_what_is_open() {
    let open = TokenOperations::TokenSend { token: s("t"), sender: Some(s("a")), contract: s("c"), amount: None, msg: vec![7] };
    assert_eq!(
        open.fill_amount(4),
        TokenOperations::TokenSend { token: s("t"), sender: Some(s("a")), contract: s("c"), amount: Some(4), msg: vec![7] }
    );
    let named = TokenOperations::TokenTransferFrom { token: s("t"), owner: s("a"), recipient: s("b"), amount: Some(1) };
    assert_eq!(named.clone().fill_amount(4), named);
    let wrapped = WrappedOperations::ConvertToDenom { from_token: s("t"), target_denom: s("orai"), executor_addr: s("b"), sender: s("a"), amount: None };
    assert_eq!(
        wrapped.fill_amount(4),
        WrappedOperations::ConvertToDenom { from_token: s("t"), target_denom: s("orai"), executor_addr: s("b"), sender: s("a"), amount: Some(4) }
    );
}

#[test]
fn utility_token_balance_question() {
    assert_eq!(
        query_token_balance(s("token"), s("alice")),
        StateQuery::TokenBalance { token: s("token"), account: s("alice") }
    );
}

#[test]
fn utility_instantiate_update_and_migrate() {
    let msg = InstantiateMsg { owner: s("owner"), wrapped_contract: s("wrapper") };
    let caller = MessageInfo { sender: s("x") };
    assert_eq!(instantiate(env(), caller, msg), Ok((config(), Response { attributes: vec![] })));
    let updated = Response { attributes: vec![Attribute { key: s("action"), value: s("update_config") }] };
    let owner = MessageInfo { sender: s("owner") };
    let stranger = MessageInfo { sender: s("stranger") };
    let mut cfg = config();
    assert_eq!(execute_update_config(&mut cfg, owner.clone(), None, Some(s("wrapper2"))), Ok(updated.clone()));
    assert_eq!(cfg, Config { owner: s("owner"), wrapped_contract: s("wrapper2") });
    assert_eq!(
        execute_update_config(&mut cfg, stranger.clone(), Some(s("stranger")), None),
        Err(ContractError::Unauthorized {})
    );
    let msg = ExecuteMsg::UpdateConfig { owner: Some(s("owner2")), wrapped_contract: None };
    assert_eq!(execute(&mut cfg, env(), stranger, msg.clone()), Err(ContractError::Unauthorized {}));
    assert_eq!(execute(&mut cfg, env(), owner, msg), Ok(updated));
    assert_eq!(cfg, Config { owner: s("owner2"), wrapped_contract: s("wrapper2") });
    assert_eq!(migrate(env(), MigrateMsg {}), Ok(Response { attributes: vec![] }));
}
