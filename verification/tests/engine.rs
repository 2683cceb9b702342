use wallet_operations::composer::{call, no_funds, one_coin, single, token_send, transfer_from};
use wallet_operations::cw20::Cw20ExecuteMsg;
use wallet_operations::decoder::first_accepting;
use wallet_operations::gateway::{
    answer_amount, emit, finished, unasked, StateAnswer, StateQuery, Step,
};
use wallet_operations::hop::{hop_required, inject_hop, send_with_hop};
use wallet_operations::oraidex::asset::{Asset, AssetInfo};
use wallet_operations::oraidex::querier::{
    bonded_amount, query_staking_amount, query_token_balance, reward_info_query_msg,
};
use wallet_operations::oraidex::staking::StakingQueryMsg;
use wallet_operations::orchai::custody::CustodyQueryMsg;
use wallet_operations::orchai::querier::borrower_query_msg;
use wallet_operations::oraidex::staking::{RewardInfoResponse, RewardInfoResponseItem};
use wallet_operations::orchai::custody::BorrowerResponse;
use wallet_operations::orchai::market::MarketExecuteMsg;
use wallet_operations::payload::{ExecutePayload, ProtocolMsg};
use wallet_operations::resolver::{asked_party, fill, quantity, underspecified, Quantity};
use wallet_operations::types::{Coin, CosmosMsg, StdError, WasmMsg};
use wallet_operations::uint256::Uint256;

fn s(text: &str) -> String {
    text.to_string()
}

fn token_msg(token: &str, msg: Cw20ExecuteMsg) -> CosmosMsg {
    CosmosMsg::Wasm(WasmMsg::Execute {
        contract_addr: s(token),
        msg: ExecutePayload::Cw20(msg),
        funds: vec![],
    })
}

fn deposit() -> ProtocolMsg {
    ProtocolMsg::Market(MarketExecuteMsg::DepositStable {})
}

fn pool(token: &str) -> AssetInfo {
    AssetInfo::Token { contract_addr: s(token) }
}

fn reward(asset: AssetInfo, bond_amount: u128) -> RewardInfoResponseItem {
    RewardInfoResponseItem {
        asset_info: asset,
        bond_amount,
        pending_reward: 3,
        pending_withdraw: vec![Asset { info: AssetInfo::NativeToken { denom: s("orai") }, amount: 1 }],
        should_migrate: None,
    }
}

#[test]
fn first_accepting_takes_the_earliest_schema() {
    assert_eq!(first_accepting(&vec![false, true, true]), Some(1));
    assert_eq!(first_accepting(&vec![true, true, true, true]), Some(0));
    assert_eq!(first_accepting(&vec![false, false, false, true]), Some(3));
}

#[test]
fn first_accepting_finds_none_where_no_schema_accepts() {
    assert_eq!(first_accepting(&vec![false, false]), None);
    assert_eq!(first_accepting(&vec![]), None);
}

#[test]
fn hop_is_required_exactly_for_different_parties() {
    assert!(hop_required(&s("orai1alice"), &s("orai1bob")));
    assert!(!hop_required(&s("orai1alice"), &s("orai1alice")));
    assert!(hop_required(&s("orai1alice"), &s("orai1alicE")));
    assert!(hop_required(&s(""), &s("orai1bob")));
}

#[test]
fn inject_hop_moves_funds_from_sender_to_executor() {
    let hop = inject_hop(&s("token"), &s("alice"), &s("bob"), 42);
    assert_eq!(
        hop,
        vec![token_msg(
            "token",
            Cw20ExecuteMsg::TransferFrom { owner: s("alice"), recipient: s("bob"), amount: 42 },
        )]
    );
}

#[test]
fn inject_hop_is_empty_for_one_party() {
    assert_eq!(inject_hop(&s("token"), &s("alice"), &s("alice"), 42), Vec::<CosmosMsg>::new());
}

#[test]
fn send_with_hop_puts_the_hop_first() {
    let list = send_with_hop(s("token"), s("alice"), s("bob"), 7, s("market"), deposit());
    assert_eq!(
        list,
        vec![
            token_msg(
                "token",
                Cw20ExecuteMsg::TransferFrom { owner: s("alice"), recipient: s("bob"), amount: 7 },
            ),
            token_msg(
                "token",
                Cw20ExecuteMsg::Send { contract: s("market"), amount: 7, msg: deposit() },
            ),
        ]
    );
}

#[test]
fn send_with_hop_is_the_send_alone_for_one_party() {
    let list = send_with_hop(s("token"), s("bob"), s("bob"), 7, s("market"), deposit());
    assert_eq!(
        list,
        vec![token_msg(
            "token",
            Cw20ExecuteMsg::Send { contract: s("market"), amount: 7, msg: deposit() },
        )]
    );
}

#[test]
fn questions_are_the_same_only_with_every_part() {
    let token = query_token_balance(s("token"), s("alice"));
    assert!(token.same(&query_token_balance(s("token"), s("alice"))));
    assert!(!token.same(&query_token_balance(s("token"), s("bob"))));
    assert!(!token.same(&query_token_balance(s("other"), s("alice"))));
    assert!(!token.same(&StateQuery::NativeBalance { account: s("alice"), denom: s("token") }));
    let native = StateQuery::NativeBalance { account: s("alice"), denom: s("orai") };
    assert!(native.same(&StateQuery::NativeBalance { account: s("alice"), denom: s("orai") }));
    assert!(!native.same(&StateQuery::NativeBalance { account: s("alice"), denom: s("uatom") }));
    let staked = query_staking_amount(s("staking"), s("alice"), pool("lp"));
    assert!(staked.same(&query_staking_amount(s("staking"), s("alice"), pool("lp"))));
    assert!(!staked.same(&query_staking_amount(s("staking"), s("alice"), pool("lp2"))));
    assert!(!staked.same(&query_staking_amount(s("staking"), s("bob"), pool("lp"))));
    let borrower = StateQuery::CustodyBorrower { custody: s("custody"), borrower: s("alice") };
    assert!(borrower.same(&StateQuery::CustodyBorrower { custody: s("custody"), borrower: s("alice") }));
    assert!(!borrower.same(&StateQuery::CustodyBorrower { custody: s("custody"), borrower: s("bob") }));
    assert!(!borrower.same(&token));
    let delegation = StateQuery::Delegation { delegator: s("alice"), validator: s("val") };
    assert!(delegation.same(&StateQuery::Delegation { delegator: s("alice"), validator: s("val") }));
    assert!(!delegation.same(&StateQuery::Delegation { delegator: s("alice"), validator: s("val2") }));
}

#[test]
fn asked_party_is_the_sender_of_an_open_amount() {
    assert_eq!(asked_party(&Some(s("alice")), &None), Some(s("alice")));
    assert_eq!(asked_party(&Some(s("alice")), &Some(1)), None);
    assert_eq!(asked_party(&None, &None), None);
    assert_eq!(asked_party(&None, &Some(1)), None);
    assert_eq!(unasked(), StdError::GenericErr { msg: s("The operation does not ask this question") });
}

#[test]
fn composer_builds_calls_and_funds() {
    assert_eq!(no_funds(), Vec::<Coin>::new());
    assert_eq!(one_coin(s("orai"), 9), vec![Coin { denom: s("orai"), amount: 9 }]);
    assert_eq!(
        call(s("market"), deposit(), one_coin(s("orai"), 9)),
        CosmosMsg::Wasm(WasmMsg::Execute {
            contract_addr: s("market"),
            msg: ExecutePayload::Protocol(deposit()),
            funds: vec![Coin { denom: s("orai"), amount: 9 }],
        })
    );
    assert_eq!(
        token_send(s("token"), s("market"), 5, deposit()),
        token_msg("token", Cw20ExecuteMsg::Send { contract: s("market"), amount: 5, msg: deposit() })
    );
    assert_eq!(
        transfer_from(s("token"), s("alice"), s("bob"), 5),
        token_msg(
            "token",
            Cw20ExecuteMsg::TransferFrom { owner: s("alice"), recipient: s("bob"), amount: 5 },
        )
    );
    let one = single(transfer_from(s("token"), s("alice"), s("bob"), 5));
    assert_eq!(one.len(), 1);
}

#[test]
fn quantity_prefers_the_named_amount() {
    assert_eq!(quantity(Some(s("alice")), Some(5)), Ok(Quantity::Given(5)));
    assert_eq!(quantity(None, Some(0)), Ok(Quantity::Given(0)));
}

#[test]
fn quantity_falls_back_on_the_sender() {
    assert_eq!(quantity(Some(s("alice")), None), Ok(Quantity::AllOf(s("alice"))));
}

#[test]
fn quantity_without_sender_and_amount_is_refused() {
    assert_eq!(
        quantity(None, None),
        Err(StdError::GenericErr { msg: s("Sender and amount is none!!!") })
    );
    assert_eq!(underspecified(), StdError::GenericErr { msg: s("Sender and amount is none!!!") });
}

#[test]
fn fill_keeps_a_named_amount() {
    assert_eq!(fill(Some(3), 500), Some(3));
    assert_eq!(fill(None, 500), Some(500));
}

#[test]
fn answer_amount_takes_a_balance_as_it_is() {
    let token = StateQuery::TokenBalance { token: s("token"), account: s("alice") };
    let native = StateQuery::NativeBalance { account: s("alice"), denom: s("orai") };
    assert_eq!(answer_amount(&token, &StateAnswer::Balance(500)), Ok(500));
    assert_eq!(answer_amount(&native, &StateAnswer::Balance(0)), Ok(0));
    assert_eq!(answer_amount(&native, &StateAnswer::Balance(u128::MAX)), Ok(u128::MAX));
}

#[test]
fn answer_amount_follows_a_changed_balance() {
    let token = StateQuery::TokenBalance { token: s("token"), account: s("alice") };
    assert_eq!(answer_amount(&token, &StateAnswer::Balance(500)), Ok(500));
    assert_eq!(answer_amount(&token, &StateAnswer::Balance(499)), Ok(499));
}

#[test]
fn answer_amount_takes_the_bond_in_the_pool_asked_for() {
    let query = query_staking_amount(s("staking"), s("alice"), pool("lp2"));
    let response = RewardInfoResponse {
        staker_addr: s("alice"),
        reward_infos: vec![reward(pool("lp1"), 10), reward(pool("lp2"), 20), reward(pool("lp2"), 30)],
    };
    assert_eq!(answer_amount(&query, &StateAnswer::Staked(response.clone())), Ok(20));
    assert_eq!(bonded_amount(&response, &pool("lp1")), Some(10));
    assert_eq!(bonded_amount(&response, &pool("lp3")), None);
    assert_eq!(bonded_amount(&response, &AssetInfo::NativeToken { denom: s("lp1") }), None);
}

#[test]
fn answer_amount_fails_without_an_entry_for_the_pool() {
    let query = query_staking_amount(s("staking"), s("alice"), pool("lp2"));
    let response = RewardInfoResponse { staker_addr: s("alice"), reward_infos: vec![] };
    assert_eq!(
        answer_amount(&query, &StateAnswer::Staked(response)),
        Err(StdError::NotFound { kind: s("Reward info") })
    );
}

#[test]
fn answer_amount_takes_the_locked_collateral() {
    let query = StateQuery::CustodyBorrower { custody: s("custody"), borrower: s("alice") };
    let response = BorrowerResponse {
        borrower: s("alice"),
        balance: Uint256::from_u128(1000),
        spendable: Uint256::from_u128(250),
    };
    assert_eq!(answer_amount(&query, &StateAnswer::Borrower(response)), Ok(750));
}

#[test]
fn locked_collateral_borrows_across_the_halves() {
    let response = BorrowerResponse {
        borrower: s("alice"),
        balance: Uint256 { hi: 1, lo: 5 },
        spendable: Uint256 { hi: 0, lo: 6 },
    };
    assert_eq!(response.locked(), Ok(u128::MAX));
}

#[test]
fn locked_collateral_fails_on_an_unsound_position() {
    let more_spendable = BorrowerResponse {
        borrower: s("alice"),
        balance: Uint256::from_u128(5),
        spendable: Uint256::from_u128(6),
    };
    assert_eq!(more_spendable.locked(), Err(StdError::Overflow {}));
    let too_large = BorrowerResponse {
        borrower: s("alice"),
        balance: Uint256 { hi: 2, lo: 0 },
        spendable: Uint256 { hi: 0, lo: 0 },
    };
    assert_eq!(too_large.locked(), Err(StdError::Overflow {}));
}

#[test]
fn answer_amount_takes_the_delegated_coin() {
    let query = StateQuery::Delegation { delegator: s("alice"), validator: s("val") };
    let coin = Coin { denom: s("orai"), amount: 77 };
    assert_eq!(answer_amount(&query, &StateAnswer::Delegation(Some(coin))), Ok(77));
    assert_eq!(
        answer_amount(&query, &StateAnswer::Delegation(None)),
        Err(StdError::NotFound { kind: s("Delegation") })
    );
}

#[test]
fn answer_amount_refuses_an_answer_of_another_kind() {
    let mismatch = Err(StdError::GenericErr { msg: s("Answer does not fit the question") });
    let token = query_token_balance(s("token"), s("alice"));
    let borrower = StateQuery::CustodyBorrower { custody: s("custody"), borrower: s("alice") };
    let delegation = StateQuery::Delegation { delegator: s("alice"), validator: s("val") };
    let staked = query_staking_amount(s("staking"), s("alice"), pool("lp"));
    assert_eq!(answer_amount(&token, &StateAnswer::Delegation(None)), mismatch);
    assert_eq!(answer_amount(&borrower, &StateAnswer::Balance(1)), mismatch);
    assert_eq!(answer_amount(&delegation, &StateAnswer::Balance(1)), mismatch);
    assert_eq!(answer_amount(&staked, &StateAnswer::Balance(1)), mismatch);
}

#[test]
fn queries_name_contract_and_account() {
    assert_eq!(
        query_token_balance(s("token"), s("alice")),
        StateQuery::TokenBalance { token: s("token"), account: s("alice") }
    );
    assert_eq!(
        query_staking_amount(s("staking"), s("alice"), pool("lp")),
        StateQuery::StakedAmount { staking: s("staking"), staker: s("alice"), asset_info: pool("lp") }
    );
}

#[test]
fn query_messages_name_the_party_asked_about() {
    assert_eq!(borrower_query_msg(s("alice")), CustodyQueryMsg::Borrower { address: s("alice") });
    assert_eq!(
        reward_info_query_msg(s("alice"), pool("lp")),
        StakingQueryMsg::RewardInfo { staker_addr: s("alice"), asset_info: Some(pool("lp")) }
    );
}

#[test]
fn emit_wraps_a_list_and_passes_an_error_on() {
    assert_eq!(emit(Ok(vec![])), Ok(Step::Emit(vec![])));
    assert_eq!(emit(Err(StdError::Overflow {})), Err(StdError::Overflow {}));
}

#[test]
fn finished_hands_the_messages_out() {
    let list = vec![transfer_from(s("token"), s("alice"), s("bob"), 5)];
    assert_eq!(finished(Ok(Step::Emit(list.clone()))), Ok(list));
    assert_eq!(finished(Err(StdError::Overflow {})), Err(StdError::Overflow {}));
    assert_eq!(
        finished(Ok(Step::Ask(query_token_balance(s("token"), s("alice"))))),
        Err(StdError::GenericErr { msg: s("The amount is still open") })
    );
}

#[test]
fn asset_identity_compares_kind_and_name() {
    assert!(pool("a").same(&pool("a")));
    assert!(!pool("a").same(&pool("b")));
    assert!(!pool("a").same(&AssetInfo::NativeToken { denom: s("a") }));
    assert!(AssetInfo::NativeToken { denom: s("orai") }.same(&AssetInfo::NativeToken { denom: s("orai") }));
    assert_eq!(pool("a").clone(), pool("a"));
}
