//! Cross-chain transaction builder: transfers over the token bridge, and messages that the
//! interchain account of the executor runs on the host chain.

use crate::composer::single;
use crate::cosmos_sdk_proto::encoding::decimal;
use crate::cosmos_sdk_proto::messages::{
    Any,
    AnyView,
    MsgDelegate,
    MsgDelegateView,
    MsgRegisterAccount,
    MsgRegisterAccountView,
    MsgSubmitTx,
    MsgSubmitTxView,
    MsgTransfer,
    MsgTransferView,
    ProtoCoin,
    ProtoCoinView,
};
use crate::cosmos_sdk_proto::type_urls::{
    MSG_DELEGATE,
    MSG_REGISTER_ACCOUNT,
    MSG_SUBMIT_TX,
    MSG_TRANSFER,
};
use crate::theta_operations::state::{Config, ConfigView};
use crate::types::{
    Coin,
    CoinView,
    CosmosMsg,
    CosmosMsgView,
    Env,
    IbcMsg,
    IbcMsgView,
    IbcTimeout,
    NANOS_PER_SECOND,
    StdError,
    StdErrorView,
    StdResult,
    Timestamp,
    Uint128,
    result_view,
};
use vstd::prelude::*;

verus! {

/// Model of a message list that holds one type-tagged wire message.
pub open spec fn stargate_view(type_url: Seq<char>, value: Seq<u8>) -> Seq<CosmosMsgView> {
    seq![CosmosMsgView::Stargate { type_url, value }]
}

/// The list of one type-tagged wire message.
pub fn stargate(type_url: String, value: Vec<u8>) -> (r: Vec<CosmosMsg>)
    ensures
        r.deep_view() == stargate_view(type_url@, value@),
{
    assert(value.deep_view() =~= value@);
    single(CosmosMsg::Stargate { type_url, value })
}

/// Model of the submission through the interchain account of `executor_addr`: the message,
/// tagged with the name of its type, inside a submission for the configured connection.
pub open spec fn submit_tx_view(
    config: ConfigView,
    executor_addr: Seq<char>,
    type_url: Seq<char>,
    encoded: Seq<u8>,
) -> Seq<CosmosMsgView> {
    stargate_view(
        MSG_SUBMIT_TX@,
        (MsgSubmitTxView {
            owner: executor_addr,
            connection_id: config.ica_connection_id,
            msg: Some(AnyView { type_url, value: encoded }),
        }).encoding(),
    )
}

/// Wraps an encoded message for the interchain account of `executor_addr`.
pub fn submit_tx(config: &Config, executor_addr: String, type_url: String, encoded: Vec<u8>) -> (r:
    Vec<CosmosMsg>)
    ensures
        r.deep_view() == submit_tx_view(config.deep_view(), executor_addr@, type_url@, encoded@),
{
    assert(encoded.deep_view() =~= encoded@);
    let tx = MsgSubmitTx {
        owner: executor_addr,
        connection_id: config.ica_connection_id.clone(),
        msg: Some(Any { type_url, value: encoded }),
    };
    stargate(MsgSubmitTx::type_url(), tx.to_bytes())
}

/// Model of [`query_register_interchain_account_msg`].
pub open spec fn register_interchain_account_view(config: ConfigView, executor_addr: Seq<char>) -> Seq<
    CosmosMsgView,
> {
    stargate_view(
        MSG_REGISTER_ACCOUNT@,
        (MsgRegisterAccountView {
            owner: executor_addr,
            connection_id: config.ica_connection_id,
            version: Seq::empty(),
        }).encoding(),
    )
}

/// Registers an interchain account for the executor on the configured connection.
pub fn query_register_interchain_account_msg(config: &Config, executor_addr: String) -> (r: StdResult<
    Vec<CosmosMsg>,
>)
    ensures
        result_view(r) == Ok::<Seq<CosmosMsgView>, StdErrorView>(
            register_interchain_account_view(config.deep_view(), executor_addr@),
        ),
{
    let tx = MsgRegisterAccount {
        owner: executor_addr,
        connection_id: config.ica_connection_id.clone(),
        version: String::new(),
    };
    Ok(stargate(MsgRegisterAccount::type_url(), tx.to_bytes()))
}

/// The time at which an instruction across chains is void, in nanoseconds: the block time
/// plus the configured timeout. `None` where that time does not fit in 64 bits.
pub open spec fn packet_timeout(now: Timestamp, timeout_default: u64) -> Option<u64> {
    let nanos = now.nanos + timeout_default * NANOS_PER_SECOND;
    if nanos <= u64::MAX {
        Some(nanos as u64)
    } else {
        None
    }
}

/// The time at which an instruction across chains is void: see [`packet_timeout`].
pub fn packet_timeout_nanos(now: Timestamp, timeout_default: u64) -> (r: Option<u64>)
    ensures
        r == packet_timeout(now, timeout_default),
{
    match timeout_default.checked_mul(NANOS_PER_SECOND) {
        Some(timeout) => now.nanos().checked_add(timeout),
        None => None,
    }
}

/// The time at which a transfer to the host chain is void: the block time plus the
/// configured timeout, to the nanosecond. `None` where that time does not fit in 64 bits of
/// nanoseconds.
pub open spec fn transfer_timeout(now: Timestamp, timeout_default: u64) -> Option<Timestamp> {
    match packet_timeout(now, timeout_default) {
        Some(nanos) => Some(Timestamp { nanos }),
        None => None,
    }
}

/// Model of [`query_transfer_to_host_chain_msg`].
pub open spec fn transfer_to_host_chain_view(
    config: ConfigView,
    env: Env,
    denom: Seq<char>,
    amount: u128,
    receiver: Seq<char>,
    source_channel: Seq<char>,
) -> Result<Seq<CosmosMsgView>, StdErrorView> {
    match transfer_timeout(env.block.time, config.timeout_default) {
        Some(timestamp) => Ok(
            seq![
                CosmosMsgView::Ibc(
                    IbcMsgView::Transfer {
                        channel_id: source_channel,
                        to_address: receiver,
                        amount: CoinView { denom, amount },
                        timeout: IbcTimeout { timestamp },
                    },
                ),
            ],
        ),
        None => Err(StdErrorView::Overflow {  }),
    }
}

/// Sends native tokens to the host chain over the token bridge: one transfer, void exactly at
/// the block time plus the configured timeout. Fails where that time leaves the range of a
/// timestamp.
pub fn query_transfer_to_host_chain_msg(
    config: &Config,
    env: Env,
    _executor_addr: String,
    denom: String,
    amount: Uint128,
    receiver: String,
    _source_port: String,
    source_channel: String,
) -> (r: StdResult<Vec<CosmosMsg>>)
    ensures
        result_view(r) == transfer_to_host_chain_view(
            config.deep_view(),
            env,
            denom@,
            amount,
            receiver@,
            source_channel@,
        ),
{
    let timestamp = match packet_timeout_nanos(env.block.time, config.timeout_default) {
        Some(nanos) => Timestamp::from_nanos(nanos),
        None => {
            return Err(StdError::Overflow {  });
        },
    };
    let ibc_msg = IbcMsg::Transfer {
        channel_id: source_channel,
        to_address: receiver,
        amount: Coin { denom, amount },
        timeout: IbcTimeout::with_timestamp(timestamp),
    };
    Ok(single(CosmosMsg::Ibc(ibc_msg)))
}

/// Model of [`query_transfer_from_host_chain_msg`].
pub open spec fn transfer_from_host_chain_view(
    config: ConfigView,
    env: Env,
    executor_addr: Seq<char>,
    denom: Seq<char>,
    amount: u128,
    sender: Seq<char>,
    receiver: Seq<char>,
    source_port: Seq<char>,
    source_channel: Seq<char>,
) -> Result<Seq<CosmosMsgView>, StdErrorView> {
    match packet_timeout(env.block.time, config.timeout_default) {
        Some(timeout_timestamp) => Ok(
            submit_tx_view(
                config,
                executor_addr,
                MSG_TRANSFER@,
                (MsgTransferView {
                    source_port,
                    source_channel,
                    token: Some(ProtoCoinView { denom, amount: decimal(amount as nat) }),
                    sender,
                    receiver,
                    timeout_height: None,
                    timeout_timestamp,
                }).encoding(),
            ),
        ),
        None => Err(StdErrorView::Overflow {  }),
    }
}

/// Sends tokens back from the host chain: a bridge transfer, void after the block time plus
/// the configured timeout, run by the interchain account of the executor. Fails where that
/// time leaves 64 bits of nanoseconds.
pub fn query_transfer_from_host_chain_msg(
    config: &Config,
    env: Env,
    executor_addr: String,
    denom: String,
    amount: Uint128,
    sender: String,
    receiver: String,
    source_port: String,
    source_channel: String,
) -> (r: StdResult<Vec<CosmosMsg>>)
    ensures
        result_view(r) == transfer_from_host_chain_view(
            config.deep_view(),
            env,
            executor_addr@,
            denom@,
            amount,
            sender@,
            receiver@,
            source_port@,
            source_channel@,
        ),
{
    let timeout_timestamp = match packet_timeout_nanos(env.block.time, config.timeout_default) {
        Some(nanos) => nanos,
        None => {
            return Err(StdError::Overflow {  });
        },
    };
    let ibc_transfer_msg = MsgTransfer {
        source_port,
        source_channel,
        token: Some(ProtoCoin::new(denom, amount)),
        sender,
        receiver,
        timeout_height: None,
        timeout_timestamp,
    };
    Ok(submit_tx(config, executor_addr, MsgTransfer::type_url(), ibc_transfer_msg.to_bytes()))
}

/// Model of [`query_delegate_on_host_chain`].
pub open spec fn delegate_on_host_chain_view(
    config: ConfigView,
    executor_addr: Seq<char>,
    delegator: Seq<char>,
    validator: Seq<char>,
    denom: Seq<char>,
    amount: u128,
) -> Seq<CosmosMsgView> {
    submit_tx_view(
        config,
        executor_addr,
        MSG_DELEGATE@,
        (MsgDelegateView {
            delegator_address: delegator,
            validator_address: validator,
            amount: Some(ProtoCoinView { denom, amount: decimal(amount as nat) }),
        }).encoding(),
    )
}

/// Delegates on the host chain: a delegation run by the interchain account of the executor.
pub fn query_delegate_on_host_chain(
    config: &Config,
    _env: Env,
    executor_addr: String,
    delegator: String,
    validator: String,
    denom: String,
    amount: Uint128,
) -> (r: StdResult<Vec<CosmosMsg>>)
    ensures
        result_view(r) == Ok::<Seq<CosmosMsgView>, StdErrorView>(
            delegate_on_host_chain_view(
                config.deep_view(),
                executor_addr@,
                delegator@,
                validator@,
                denom@,
                amount,
            ),
        ),
{
    let staking_msg = MsgDelegate {
        delegator_address: delegator,
        validator_address: validator,
        amount: Some(ProtoCoin::new(denom, amount)),
    };
    Ok(submit_tx(config, executor_addr, MsgDelegate::type_url(), staking_msg.to_bytes()))
}

/// An instruction across chains that is started at block time `now` with the configured
/// timeout is void exactly at `now` plus the timeout, in nanoseconds: a packet from the host
/// chain and a transfer to it alike. Where that time does not fit in 64 bits, there is none.
pub proof fn lemma_timeout_is_block_time_plus_default(now: Timestamp, timeout_default: u64)
    ensures
        match packet_timeout(now, timeout_default) {
            Some(nanos) => nanos == now.nanos + timeout_default * NANOS_PER_SECOND,
            None => now.nanos + timeout_default * NANOS_PER_SECOND > u64::MAX,
        },
        match transfer_timeout(now, timeout_default) {
            Some(timestamp) => timestamp.nanos == now.nanos + timeout_default * NANOS_PER_SECOND,
            None => now.nanos + timeout_default * NANOS_PER_SECOND > u64::MAX,
        },
{
}

} // verus!
