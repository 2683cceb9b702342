use wallet_operations::cw20::Cw20ExecuteMsg;
use wallet_operations::gateway::{StateAnswer, StateQuery, Step};
use wallet_operations::orchai::orai_staking::{BondType, ConvertType, OraiStakingExecuteMsg, UnBondType};
use wallet_operations::orchai_liquid_staking::contract::{
    compile, decode, execute, execute_update_config, instantiate, migrate, pending_question, query,
    query_config, resume,
};
use wallet_operations::orchai_liquid_staking::msg::{
    ConfigResponse, ExecuteMsg, InstantiateMsg, MigrateMsg, QueryMsg, QueryResponse,
    StakingOperations,
};
use wallet_operations::orchai_liquid_staking::orai_staking_operations::{
    query_orai_staking_bond_msg, query_orai_staking_claim_rewards_msg,
    query_orai_staking_convert_msg, query_orai_staking_unbond_msg,
};
use wallet_operations::orchai_liquid_staking::state::Config;
use wallet_operations::payload::{ExecutePayload, ProtocolMsg};
use wallet_operations::types::{
    Attribute, BlockInfo, Coin, ContractError, CosmosMsg, Env, MessageInfo, Response, StdError,
    Timestamp, WasmMsg,
};

fn s(text: &str) -> String {
    text.to_string()
}

fn env() -> Env {
    Env { block: BlockInfo { time: Timestamp { nanos: 1 } } }
}

fn info(sender: &str) -> MessageInfo {
    MessageInfo { sender: s(sender) }
}

fn config() -> Config {
    Config {
        owner: s("owner"),
        orai_staking_hub: s("hub"),
        orai_staking_reward: s("reward"),
        orai_staking_denom: s("orai"),
    }
}

fn token_msg(token: &str, msg: Cw20ExecuteMsg) -> CosmosMsg {
    CosmosMsg::Wasm(WasmMsg::Execute {
        contract_addr: s(token),
        msg: ExecutePayload::Cw20(msg),
        funds: vec![],
    })
}

fn hop(token: &str, owner: &str, recipient: &str, amount: u128) -> CosmosMsg {
    token_msg(token, Cw20ExecuteMsg::TransferFrom { owner: s(owner), recipient: s(recipient), amount })
}

fn send(token: &str, amount: u128, msg: OraiStakingExecuteMsg) -> CosmosMsg {
    token_msg(token, Cw20ExecuteMsg::Send { contract: s("hub"), amount, msg: ProtocolMsg::OraiStaking(msg) })
}

#[test]
fn liquid_staking_bond_attaches_the_staking_denomination() {
    assert_eq!(
        query_orai_staking_bond_msg(&config(), env(), None, BondType::ScOrai, Some(12)),
        Ok(Step::Emit(vec![CosmosMsg::Wasm(WasmMsg::Execute {
            contract_addr: s("hub"),
            msg: ExecutePayload::Protocol(ProtocolMsg::OraiStaking(OraiStakingExecuteMsg::Bond {
                bond_type: BondType::ScOrai,
            })),
            funds: vec![Coin { denom: s("orai"), amount: 12 }],
        })]))
    );
}

#[test]
fn liquid_staking_bond_asks_for_the_native_balance_or_is_refused() {
    assert_eq!(
        query_orai_staking_bond_msg(&config(), env(), Some(s("alice")), BondType::SOrai, None),
        Ok(Step::Ask(StateQuery::NativeBalance { account: s("alice"), denom: s("orai") }))
    );
    assert_eq!(
        query_orai_staking_bond_msg(&config(), env(), None, BondType::SOrai, None),
        Err(StdError::GenericErr { msg: s("Sender and amount is none!!!") })
    );
}

#[test]
fn liquid_staking_resumed_bond_attaches_the_reported_balance() {
    let operation = StakingOperations::Bond { sender: Some(s("alice")), bond_type: BondType::SOrai, amount: None };
    let asked = match compile(&config(), env(), operation.clone()) {
        Ok(Step::Ask(question)) => question,
        other => panic!("unexpected {:?}", other),
    };
    let resumed = resume(&config(), env(), operation, &asked, &StateAnswer::Balance(77));
    assert_eq!(
        resumed.map(Step::Emit),
        query_orai_staking_bond_msg(&config(), env(), None, BondType::SOrai, Some(77))
    );
}

#[test]
fn liquid_staking_resume_refuses_a_question_that_the_operation_does_not_ask() {
    let unasked = Err(StdError::GenericErr { msg: s("The operation does not ask this question") });
    let operation = StakingOperations::Unbond { executor_addr: s("bob"), sender: s("alice"), token: s("sorai"), amount: None };
    let of_another = StateQuery::TokenBalance { token: s("sorai"), account: s("bob") };
    assert_eq!(resume(&config(), env(), operation, &of_another, &StateAnswer::Balance(3)), unasked);
}

#[test]
fn liquid_staking_pending_question_is_what_compile_asks() {
    let cases = vec![
        StakingOperations::Bond { sender: Some(s("a")), bond_type: BondType::SOrai, amount: None },
        StakingOperations::Bond { sender: None, bond_type: BondType::SOrai, amount: None },
        StakingOperations::Unbond { executor_addr: s("b"), sender: s("a"), token: s("t"), amount: None },
        StakingOperations::Convert { executor_addr: s("b"), sender: s("a"), from_token: s("t"), amount: None },
        StakingOperations::Convert { executor_addr: s("b"), sender: s("a"), from_token: s("t"), amount: Some(1) },
        StakingOperations::ClaimRewards { recipient: None },
        StakingOperations::WithdrawUnbonded { unbond_type: UnBondType::SOrai },
    ];
    let mut asked = 0;
    for operation in cases {
        let expected = match compile(&config(), env(), operation.clone()) {
            Ok(Step::Ask(question)) => Some(question),
            _ => None,
        };
        if expected.is_some() {
            asked += 1;
        }
        assert_eq!(pending_question(&config(), &operation), expected);
    }
    assert_eq!(asked, 3);
}

#[test]
fn liquid_staking_unbond_with_and_without_a_hop() {
    assert_eq!(
        query_orai_staking_unbond_msg(&config(), env(), s("bob"), s("alice"), s("sorai"), Some(3)),
        Ok(Step::Emit(vec![hop("sorai", "alice", "bob", 3), send("sorai", 3, OraiStakingExecuteMsg::Unbond {})]))
    );
    assert_eq!(
        query_orai_staking_unbond_msg(&config(), env(), s("bob"), s("bob"), s("sorai"), Some(3)),
        Ok(Step::Emit(vec![send("sorai", 3, OraiStakingExecuteMsg::Unbond {})]))
    );
    assert_eq!(
        query_orai_staking_unbond_msg(&config(), env(), s("bob"), s("alice"), s("sorai"), None),
        Ok(Step::Ask(StateQuery::TokenBalance { token: s("sorai"), account: s("alice") }))
    );
}

#[test]
fn liquid_staking_convert_with_and_without_a_hop() {
    assert_eq!(
        query_orai_staking_convert_msg(&config(), env(), s("bob"), s("alice"), s("scorai"), Some(3)),
        Ok(Step::Emit(vec![hop("scorai", "alice", "bob", 3), send("scorai", 3, OraiStakingExecuteMsg::Convert {})]))
    );
    assert_eq!(
        query_orai_staking_convert_msg(&config(), env(), s("bob"), s("bob"), s("scorai"), Some(3)),
        Ok(Step::Emit(vec![send("scorai", 3, OraiStakingExecuteMsg::Convert {})]))
    );
    assert_eq!(
        query_orai_staking_convert_msg(&config(), env(), s("bob"), s("alice"), s("scorai"), None),
        Ok(Step::Ask(StateQuery::TokenBalance { token: s("scorai"), account: s("alice") }))
    );
}

#[test]
fn liquid_staking_claim_rewards_calls_the_reward_contract() {
    assert_eq!(
        query_orai_staking_claim_rewards_msg(&config(), env(), Some(s("alice"))),
        Ok(vec![CosmosMsg::Wasm(WasmMsg::Execute {
            contract_addr: s("reward"),
            msg: ExecutePayload::Protocol(ProtocolMsg::OraiStaking(OraiStakingExecuteMsg::ClaimRewards {
                recipient: Some(s("alice")),
            })),
            funds: vec![],
        })])
    );
}

#[test]
fn liquid_staking_withdraw_unbonded_is_not_compiled() {
    let operation = StakingOperations::WithdrawUnbonded { unbond_type: UnBondType::SOrai };
    let not_found = StdError::NotFound { kind: s("Operations not found") };
    assert_eq!(decode(Some(operation.clone())), Ok(operation.clone()));
    assert_eq!(compile(&config(), env(), operation.clone()), Err(not_found.clone()));
    assert_eq!(query(&config(), env(), QueryMsg::Messages { msg: Some(operation) }), Err(not_found.clone()));
    assert_eq!(query(&config(), env(), QueryMsg::Messages { msg: None }), Err(not_found.clone()));
    assert_eq!(decode(None), Err(not_found));
}

#[test]
fn liquid_staking_query_compiles_and_reads_the_configuration() {
    let operation = StakingOperations::Convert {
        executor_addr: s("bob"),
        sender: s("alice"),
        from_token: s("scorai"),
        amount: Some(3),
    };
    assert_eq!(
        query(&config(), env(), QueryMsg::Messages { msg: Some(operation) }),
        Ok(QueryResponse::Messages(Step::Emit(vec![
            hop("scorai", "alice", "bob", 3),
            send("scorai", 3, OraiStakingExecuteMsg::Convert {}),
        ])))
    );
    let response = ConfigResponse {
        owner: s("owner"),
        orai_staking_hub: s("hub"),
        orai_staking_reward: s("reward"),
        orai_staking_denom: s("orai"),
    };
    assert_eq!(query_config(&config(), env()), Ok(response.clone()));
    assert_eq!(query(&config(), env(), QueryMsg::Config {}), Ok(QueryResponse::Config(response)));
}

#[test]
fn liquid_staking_fill_amount_fills_only_what_is_open() {
    let bond = StakingOperations::Bond { sender: Some(s("a")), bond_type: BondType::SOrai, amount: None };
    assert_eq!(
        bond.fill_amount(6),
        StakingOperations::Bond { sender: Some(s("a")), bond_type: BondType::SOrai, amount: Some(6) }
    );
    let unbond = StakingOperations::Unbond { executor_addr: s("b"), sender: s("a"), token: s("t"), amount: Some(1) };
    assert_eq!(unbond.clone().fill_amount(6), unbond);
    let convert = StakingOperations::Convert { executor_addr: s("b"), sender: s("a"), from_token: s("t"), amount: None };
    assert_eq!(
        convert.fill_amount(6),
        StakingOperations::Convert { executor_addr: s("b"), sender: s("a"), from_token: s("t"), amount: Some(6) }
    );
    let claim = StakingOperations::ClaimRewards { recipient: None };
    assert_eq!(claim.clone().fill_amount(6), claim);
}

#[test]
fn liquid_staking_instantiate_update_and_migrate() {
    let msg = InstantiateMsg {
        owner: s("owner"),
        orai_staking_hub: s("hub"),
        orai_staking_reward: s("reward"),
        orai_staking_denom: s("orai"),
    };
    assert_eq!(instantiate(env(), info("x"), msg), Ok((config(), Response { attributes: vec![] })));
    let updated = Response { attributes: vec![Attribute { key: s("action"), value: s("update_config") }] };
    let mut cfg = config();
    assert_eq!(
        execute_update_config(&mut cfg, env(), info("owner"), None, None, Some(s("reward2")), Some(s("uorai"))),
        Ok(updated.clone())
    );
    assert_eq!(cfg.orai_staking_reward, "reward2");
    assert_eq!(cfg.orai_staking_denom, "uorai");
    assert_eq!(cfg.orai_staking_hub, "hub");
    let msg = ExecuteMsg::UpdateConfig {
        owner: Some(s("owner2")),
        orai_staking_hub: Some(s("hub2")),
        orai_staking_reward: None,
        orai_staking_denom: None,
    };
    assert_eq!(execute(&mut cfg, env(), info("stranger"), msg.clone()), Err(ContractError::Unauthorized {}));
    assert_eq!(cfg.owner, "owner");
    assert_eq!(execute(&mut cfg, env(), info("owner"), msg), Ok(updated));
    assert_eq!(cfg.owner, "owner2");
    assert_eq!(cfg.orai_staking_hub, "hub2");
    assert_eq!(migrate(env(), MigrateMsg {}), Ok(Response { attributes: vec![] }));
}

#[test]
fn liquid_staking_conversion_directions_are_distinct() {
    assert_ne!(ConvertType::ScOraiToSOrai, ConvertType::SOraiToScOrai);
    assert_ne!(BondType::SOrai, BondType::ScOrai);
    assert_ne!(UnBondType::SOrai, UnBondType::ScOrai);
}
