use wallet_operations::cw20::Cw20ExecuteMsg;
use wallet_operations::gateway::{StateAnswer, StateQuery, Step};
use wallet_operations::oraidex::asset::{Asset, AssetInfo};
use wallet_operations::oraidex::pair::PairExecuteMsg;
use wallet_operations::oraidex::router::{OraiswapExecuteMsg, SwapOperation};
use wallet_operations::oraidex::staking::StakingExecuteMsg;
use wallet_operations::oraidex_operations::contract::{
    compile, decode, execute, execute_update_config, instantiate, migrate, query, query_bond_msg,
    query_config, query_provide_liquidity_msg, query_swap_operations_msg, query_unbond_msg,
    pending_question, query_withdraw_liquidity_msg, query_withdraw_msg, resume,
};
use wallet_operations::oraidex_operations::msg::{
    ConfigResponse, ExecuteMsg, InstantiateMsg, MigrateMsg, Operations, QueryMsg, QueryResponse,
};
use wallet_operations::oraidex_operations::state::Config;
use wallet_operations::payload::{ExecutePayload, ProtocolMsg};
use wallet_operations::types::{
    Attribute, BlockInfo, Coin, ContractError, CosmosMsg, Decimal, Env, MessageInfo, Response,
    StdError, Timestamp, WasmMsg,
};

fn s(text: &str) -> String {
    text.to_string()
}

fn env() -> Env {
    Env { block: BlockInfo { time: Timestamp { nanos: 1_700_000_000_000_000_000 } } }
}

fn info(sender: &str) -> MessageInfo {
    MessageInfo { sender: s(sender) }
}

fn config() -> Config {
    Config { owner: s("O"), oraiswap_router: s("R"), oraiswap_staking: s("staking") }
}

fn token(addr: &str) -> AssetInfo {
    AssetInfo::Token { contract_addr: s(addr) }
}

fn native(denom: &str) -> AssetInfo {
    AssetInfo::NativeToken { denom: s(denom) }
}

fn route(offer: AssetInfo) -> Vec<SwapOperation> {
    vec![
        SwapOperation::OraiSwap { offer_asset_info: offer, ask_asset_info: native("orai") },
        SwapOperation::OraiSwap { offer_asset_info: native("orai"), ask_asset_info: token("usdt") },
    ]
}

fn swap_payload(offer: AssetInfo) -> ProtocolMsg {
    ProtocolMsg::Router(OraiswapExecuteMsg::ExecuteSwapOperations {
        operations: route(offer),
        minimum_receive: Some(1),
        to: Some(s("dest")),
    })
}

fn token_msg(token: &str, msg: Cw20ExecuteMsg) -> CosmosMsg {
    CosmosMsg::Wasm(WasmMsg::Execute {
        contract_addr: s(token),
        msg: ExecutePayload::Cw20(msg),
        funds: vec![],
    })
}

fn protocol_msg(contract: &str, msg: ProtocolMsg, funds: Vec<Coin>) -> CosmosMsg {
    CosmosMsg::Wasm(WasmMsg::Execute {
        contract_addr: s(contract),
        msg: ExecutePayload::Protocol(msg),
        funds,
    })
}

fn underspecified() -> StdError {
    StdError::GenericErr { msg: s("Sender and amount is none!!!") }
}

fn swap(executor: &str, sender: &str, amount: Option<u128>, offer: AssetInfo) -> Result<Step, StdError> {
    query_swap_operations_msg(
        &config(),
        env(),
        s(executor),
        s(sender),
        amount,
        route(offer),
        Some(1),
        Some(s("dest")),
    )
}

#[test]
fn oraidex_swap_operation_getters() {
    let step = SwapOperation::OraiSwap { offer_asset_info: token("a"), ask_asset_info: native("orai") };
    assert_eq!(step.get_offer_asset_info(), token("a"));
    assert_eq!(step.get_target_asset_info(), native("orai"));
}

#[test]
fn oraidex_swap_of_all_tokens_the_sender_holds() {
    let operation = Operations::SwapOperations {
        executor_addr: s("U"),
        sender: s("U"),
        amount: None,
        operations: route(token("T")),
        minimum_receive: Some(1),
        to: Some(s("dest")),
    };
    let asked = match compile(&config(), env(), operation.clone()) {
        Ok(Step::Ask(question)) => question,
        other => panic!("unexpected {:?}", other),
    };
    assert_eq!(asked, StateQuery::TokenBalance { token: s("T"), account: s("U") });
    let messages = resume(&config(), env(), operation, &asked, &StateAnswer::Balance(500)).unwrap();
    assert_eq!(messages.len(), 1);
    assert_eq!(
        messages[0],
        token_msg("T", Cw20ExecuteMsg::Send { contract: s("R"), amount: 500, msg: swap_payload(token("T")) })
    );
}

#[test]
fn oraidex_resumed_swap_follows_the_balance_of_the_moment() {
    let operation = Operations::SwapOperations {
        executor_addr: s("B"),
        sender: s("A"),
        amount: None,
        operations: route(token("T")),
        minimum_receive: Some(1),
        to: Some(s("dest")),
    };
    let asked = StateQuery::TokenBalance { token: s("T"), account: s("A") };
    let first = resume(&config(), env(), operation.clone(), &asked, &StateAnswer::Balance(500));
    let second = resume(&config(), env(), operation, &asked, &StateAnswer::Balance(120));
    assert_eq!(first, swap("B", "A", Some(500), token("T")).map(|step| match step {
        Step::Emit(messages) => messages,
        other => panic!("unexpected {:?}", other),
    }));
    assert_eq!(second, swap("B", "A", Some(120), token("T")).map(|step| match step {
        Step::Emit(messages) => messages,
        other => panic!("unexpected {:?}", other),
    }));
    assert_ne!(first, second);
}

#[test]
fn oraidex_resume_fails_on_an_answer_without_an_amount() {
    let operation = Operations::Unbond { sender: Some(s("A")), asset_info: token("T"), amount: None };
    let asked = StateQuery::StakedAmount { staking: s("staking"), staker: s("A"), asset_info: token("T") };
    assert_eq!(
        resume(&config(), env(), operation.clone(), &asked, &StateAnswer::Balance(1)),
        Err(StdError::GenericErr { msg: s("Answer does not fit the question") })
    );
    let empty = wallet_operations::oraidex::staking::RewardInfoResponse { staker_addr: s("A"), reward_infos: vec![] };
    assert_eq!(
        resume(&config(), env(), operation, &asked, &StateAnswer::Staked(empty)),
        Err(StdError::NotFound { kind: s("Reward info") })
    );
}

#[test]
fn oraidex_resume_refuses_a_question_that_the_operation_does_not_ask() {
    let unasked = Err(StdError::GenericErr { msg: s("The operation does not ask this question") });
    let operation = Operations::SwapOperations {
        executor_addr: s("B"),
        sender: s("A"),
        amount: None,
        operations: route(token("T")),
        minimum_receive: Some(1),
        to: Some(s("dest")),
    };
    let custody = StateQuery::CustodyBorrower { custody: s("custody"), borrower: s("mallory") };
    let position = StateAnswer::Borrower(wallet_operations::orchai::custody::BorrowerResponse {
        borrower: s("mallory"),
        balance: wallet_operations::uint256::Uint256::from_u128(1000),
        spendable: wallet_operations::uint256::Uint256::from_u128(300),
    });
    assert_eq!(resume(&config(), env(), operation.clone(), &custody, &position), unasked);
    let other_account = StateQuery::TokenBalance { token: s("T"), account: s("B") };
    assert_eq!(resume(&config(), env(), operation, &other_account, &StateAnswer::Balance(5)), unasked);
    let named = Operations::Bond { sender: Some(s("A")), lp_token: s("lp"), asset_info: token("T"), amount: Some(1) };
    let balance = StateQuery::TokenBalance { token: s("lp"), account: s("A") };
    assert_eq!(resume(&config(), env(), named, &balance, &StateAnswer::Balance(5)), unasked);
}

#[test]
fn oraidex_pending_question_is_what_compile_asks() {
    let swap_open = Operations::SwapOperations {
        executor_addr: s("B"),
        sender: s("A"),
        amount: None,
        operations: route(native("uatom")),
        minimum_receive: None,
        to: None,
    };
    let empty_swap = Operations::SwapOperations {
        executor_addr: s("B"),
        sender: s("A"),
        amount: None,
        operations: vec![],
        minimum_receive: None,
        to: None,
    };
    let cases = vec![
        swap_open,
        empty_swap,
        Operations::WithdrawLiquidity { sender: Some(s("A")), pair_contract: s("pair"), lp_token: s("lp"), amount: None },
        Operations::WithdrawLiquidity { sender: None, pair_contract: s("pair"), lp_token: s("lp"), amount: None },
        Operations::Bond { sender: Some(s("A")), lp_token: s("lp"), asset_info: token("T"), amount: None },
        Operations::Bond { sender: Some(s("A")), lp_token: s("lp"), asset_info: token("T"), amount: Some(1) },
        Operations::Unbond { sender: Some(s("A")), asset_info: token("T"), amount: None },
        Operations::Withdraw { asset_info: None },
    ];
    let mut asked = 0;
    for operation in cases {
        let expected = match compile(&config(), env(), operation.clone()) {
            Ok(Step::Ask(question)) => Some(question),
            _ => None,
        };
        if expected.is_some() {
            asked += 1;
        }
        assert_eq!(pending_question(&config(), &operation), expected);
    }
    assert_eq!(asked, 4);
}

#[test]
fn oraidex_swap_of_tokens_with_a_hop() {
    assert_eq!(
        swap("B", "A", Some(10), token("T")),
        Ok(Step::Emit(vec![
            token_msg("T", Cw20ExecuteMsg::TransferFrom { owner: s("A"), recipient: s("B"), amount: 10 }),
            token_msg("T", Cw20ExecuteMsg::Send { contract: s("R"), amount: 10, msg: swap_payload(token("T")) }),
        ]))
    );
}

#[test]
fn oraidex_swap_of_tokens_asks_for_the_senders_balance() {
    assert_eq!(
        swap("B", "A", None, token("T")),
        Ok(Step::Ask(StateQuery::TokenBalance { token: s("T"), account: s("A") }))
    );
}

#[test]
fn oraidex_swap_of_native_tokens_rides_as_funds_without_a_hop() {
    assert_eq!(
        swap("B", "A", Some(10), native("uatom")),
        Ok(Step::Emit(vec![protocol_msg(
            "R",
            swap_payload(native("uatom")),
            vec![Coin { denom: s("uatom"), amount: 10 }],
        )]))
    );
    assert_eq!(
        swap("B", "A", None, native("uatom")),
        Ok(Step::Ask(StateQuery::NativeBalance { account: s("A"), denom: s("uatom") }))
    );
}

#[test]
fn oraidex_swap_without_steps_is_refused() {
    let empty = StdError::GenericErr { msg: s("Swap operations is empty!!!") };
    assert_eq!(
        query_swap_operations_msg(&config(), env(), s("B"), s("A"), Some(10), vec![], None, None),
        Err(empty.clone())
    );
    assert_eq!(
        query_swap_operations_msg(&config(), env(), s("B"), s("A"), None, vec![], None, None),
        Err(empty)
    );
}

#[test]
fn oraidex_bond_sends_pool_tokens_to_the_staking_contract() {
    assert_eq!(
        query_bond_msg(&config(), env(), None, s("lp"), token("T"), Some(4)),
        Ok(Step::Emit(vec![token_msg(
            "lp",
            Cw20ExecuteMsg::Send {
                contract: s("staking"),
                amount: 4,
                msg: ProtocolMsg::Staking(StakingExecuteMsg::Bond { asset_info: token("T") }),
            },
        )]))
    );
    assert_eq!(
        query_bond_msg(&config(), env(), Some(s("A")), s("lp"), token("T"), None),
        Ok(Step::Ask(StateQuery::TokenBalance { token: s("lp"), account: s("A") }))
    );
    assert_eq!(query_bond_msg(&config(), env(), None, s("lp"), token("T"), None), Err(underspecified()));
}

#[test]
fn oraidex_unbond_calls_the_staking_contract() {
    assert_eq!(
        query_unbond_msg(&config(), env(), Some(s("A")), token("T"), Some(4)),
        Ok(Step::Emit(vec![protocol_msg(
            "staking",
            ProtocolMsg::Staking(StakingExecuteMsg::Unbond { asset_info: token("T"), amount: 4 }),
            vec![],
        )]))
    );
    assert_eq!(
        query_unbond_msg(&config(), env(), Some(s("A")), token("T"), None),
        Ok(Step::Ask(StateQuery::StakedAmount { staking: s("staking"), staker: s("A"), asset_info: token("T") }))
    );
    assert_eq!(query_unbond_msg(&config(), env(), None, token("T"), None), Err(underspecified()));
}

#[test]
fn oraidex_withdraw_calls_the_staking_contract() {
    assert_eq!(
        query_withdraw_msg(&config(), env(), Some(native("orai"))),
        Ok(vec![protocol_msg(
            "staking",
            ProtocolMsg::Staking(StakingExecuteMsg::Withdraw { asset_info: Some(native("orai")) }),
            vec![],
        )])
    );
    assert_eq!(
        query_withdraw_msg(&config(), env(), None),
        Ok(vec![protocol_msg(
            "staking",
            ProtocolMsg::Staking(StakingExecuteMsg::Withdraw { asset_info: None }),
            vec![],
        )])
    );
}

#[test]
fn oraidex_withdraw_liquidity_sends_pool_tokens_to_the_pair() {
    assert_eq!(
        query_withdraw_liquidity_msg(env(), None, s("pair"), s("lp"), Some(4)),
        Ok(Step::Emit(vec![token_msg(
            "lp",
            Cw20ExecuteMsg::Send {
                contract: s("pair"),
                amount: 4,
                msg: ProtocolMsg::Pair(PairExecuteMsg::WithdrawLiquidity {}),
            },
        )]))
    );
    assert_eq!(
        query_withdraw_liquidity_msg(env(), Some(s("A")), s("pair"), s("lp"), None),
        Ok(Step::Ask(StateQuery::TokenBalance { token: s("lp"), account: s("A") }))
    );
    assert_eq!(query_withdraw_liquidity_msg(env(), None, s("pair"), s("lp"), None), Err(underspecified()));
}

fn provide(assets: [Asset; 2]) -> Vec<Coin> {
    let slippage = Some(Decimal { atomics: 5_000_000_000_000_000 });
    let list = query_provide_liquidity_msg(env(), s("pair"), assets.clone(), slippage, Some(s("A"))).unwrap();
    assert_eq!(list.len(), 1);
    match &list[0] {
        CosmosMsg::Wasm(WasmMsg::Execute { contract_addr, msg, funds }) => {
            assert_eq!(contract_addr, "pair");
            assert_eq!(
                *msg,
                ExecutePayload::Protocol(ProtocolMsg::Pair(PairExecuteMsg::ProvideLiquidity {
                    assets,
                    slippage_tolerance: slippage,
                    receiver: Some(s("A")),
                }))
            );
            funds.clone()
        },
        other => panic!("unexpected {:?}", other),
    }
}

#[test]
fn oraidex_provide_liquidity_attaches_only_the_native_assets() {
    let orai = Asset { info: native("orai"), amount: 7 };
    let atom = Asset { info: native("uatom"), amount: 9 };
    let usdt = Asset { info: token("usdt"), amount: 11 };
    let airi = Asset { info: token("airi"), amount: 13 };
    assert_eq!(provide([orai.clone(), usdt.clone()]), vec![Coin { denom: s("orai"), amount: 7 }]);
    assert_eq!(provide([usdt.clone(), orai.clone()]), vec![Coin { denom: s("orai"), amount: 7 }]);
    assert_eq!(
        provide([orai.clone(), atom.clone()]),
        vec![Coin { denom: s("orai"), amount: 7 }, Coin { denom: s("uatom"), amount: 9 }]
    );
    assert_eq!(
        provide([atom, orai]),
        vec![Coin { denom: s("uatom"), amount: 9 }, Coin { denom: s("orai"), amount: 7 }]
    );
    assert_eq!(provide([usdt, airi]), vec![]);
}

#[test]
fn oraidex_decode_and_query() {
    let operation = Operations::Withdraw { asset_info: None };
    assert_eq!(decode(Some(operation.clone())), Ok(operation.clone()));
    assert_eq!(decode(None), Err(StdError::NotFound { kind: s("Messages not found") }));
    assert_eq!(
        query(&config(), env(), QueryMsg::Messages { msg: Some(operation) }),
        Ok(QueryResponse::Messages(Step::Emit(query_withdraw_msg(&config(), env(), None).unwrap())))
    );
    assert_eq!(
        query(&config(), env(), QueryMsg::Messages { msg: None }),
        Err(StdError::NotFound { kind: s("Messages not found") })
    );
    assert_eq!(
        query(&config(), env(), QueryMsg::Config {}),
        Ok(QueryResponse::Config(ConfigResponse {
            owner: s("O"),
            oraiswap_router: s("R"),
            oraiswap_staking: s("staking"),
        }))
    );
    assert_eq!(query_config(&config(), env()).unwrap().oraiswap_router, "R");
}

#[test]
fn oraidex_compile_covers_every_operation() {
    let usdt = Asset { info: token("usdt"), amount: 11 };
    let orai = Asset { info: native("orai"), amount: 7 };
    let cases = vec![
        Operations::SwapOperations {
            executor_addr: s("B"),
            sender: s("A"),
            amount: Some(1),
            operations: route(token("T")),
            minimum_receive: None,
            to: None,
        },
        Operations::ProvideLiquidity {
            pair_contract: s("pair"),
            assets: [usdt, orai],
            slippage_tolerance: None,
            receiver: None,
        },
        Operations::WithdrawLiquidity { sender: None, pair_contract: s("pair"), lp_token: s("lp"), amount: Some(1) },
        Operations::Bond { sender: None, lp_token: s("lp"), asset_info: token("T"), amount: Some(1) },
        Operations::Unbond { sender: None, asset_info: token("T"), amount: Some(1) },
        Operations::Withdraw { asset_info: None },
    ];
    let sizes: Vec<usize> = cases
        .into_iter()
        .map(|op| match compile(&config(), env(), op) {
            Ok(Step::Emit(list)) => list.len(),
            other => panic!("unexpected {:?}", other),
        })
        .collect();
    assert_eq!(sizes, vec![2, 1, 1, 1, 1, 1]);
}

#[test]
fn oraidex_fill_amount_fills_only_what_is_open() {
    let open = Operations::Bond { sender: Some(s("A")), lp_token: s("lp"), asset_info: token("T"), amount: None };
    assert_eq!(
        open.fill_amount(8),
        Operations::Bond { sender: Some(s("A")), lp_token: s("lp"), asset_info: token("T"), amount: Some(8) }
    );
    let named = Operations::Unbond { sender: Some(s("A")), asset_info: token("T"), amount: Some(2) };
    assert_eq!(named.clone().fill_amount(8), named);
    let liquidity = Operations::WithdrawLiquidity { sender: Some(s("A")), pair_contract: s("p"), lp_token: s("lp"), amount: None };
    assert_eq!(
        liquidity.fill_amount(8),
        Operations::WithdrawLiquidity { sender: Some(s("A")), pair_contract: s("p"), lp_token: s("lp"), amount: Some(8) }
    );
    let fixed = Operations::Withdraw { asset_info: None };
    assert_eq!(fixed.clone().fill_amount(8), fixed);
}

#[test]
fn oraidex_instantiate_update_and_migrate() {
    let msg = InstantiateMsg { owner: s("O"), oraiswap_router: s("R"), oraiswap_staking: s("staking") };
    assert_eq!(instantiate(env(), info("x"), msg), Ok((config(), Response { attributes: vec![] })));
    let updated = Response { attributes: vec![Attribute { key: s("action"), value: s("update_config") }] };
    let mut cfg = config();
    assert_eq!(
        execute_update_config(&mut cfg, env(), info("O"), None, Some(s("R2")), None),
        Ok(updated.clone())
    );
    assert_eq!(cfg, Config { owner: s("O"), oraiswap_router: s("R2"), oraiswap_staking: s("staking") });
    assert_eq!(
        execute_update_config(&mut cfg, env(), info("U"), Some(s("U")), None, None),
        Err(ContractError::Unauthorized {})
    );
    assert_eq!(cfg.owner, "O");
    let msg = ExecuteMsg::UpdateConfig { owner: Some(s("U")), oraiswap_router: None, oraiswap_staking: Some(s("S2")) };
    assert_eq!(execute(&mut cfg, env(), info("O"), msg.clone()), Ok(updated));
    assert_eq!(cfg, Config { owner: s("U"), oraiswap_router: s("R2"), oraiswap_staking: s("S2") });
    assert_eq!(execute(&mut cfg, env(), info("O"), msg), Err(ContractError::Unauthorized {}));
    assert_eq!(migrate(env(), MigrateMsg {}), Ok(Response { attributes: vec![] }));
}
