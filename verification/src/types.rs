//! Plain values of the chain as the engine sees them: addresses, amounts, time, errors, and
//! the outbound messages.

use crate::payload::{ExecutePayload, ExecutePayloadView};
use vstd::prelude::*;

verus! {

/// A fixed-point number with 18 fractional digits, held as its scaled integer.
#[derive(Debug, Clone, Copy, PartialEq, Eq)]
pub struct Decimal {
    pub atomics: Uint128,
}

impl DeepView for Decimal {
    type V = Decimal;

    open spec fn deep_view(&self) -> Decimal {
        *self
    }
}

/// A point in time, in nanoseconds since the Unix epoch.
#[derive(Debug, Clone, Copy, PartialEq, Eq)]
pub struct Timestamp {
    pub nanos: u64,
}

impl DeepView for Timestamp {
    type V = Timestamp;

    open spec fn deep_view(&self) -> Timestamp {
        *self
    }
}

/// What an adapter reads of the block it runs in.
#[derive(Debug, Clone, Copy, PartialEq, Eq)]
pub struct BlockInfo {
    pub time: Timestamp,
}

impl DeepView for BlockInfo {
    type V = BlockInfo;

    open spec fn deep_view(&self) -> BlockInfo {
        *self
    }
}

/// The environment of one invocation.
#[derive(Debug, Clone, Copy, PartialEq, Eq)]
pub struct Env {
    pub block: BlockInfo,
}

impl DeepView for Env {
    type V = Env;

    open spec fn deep_view(&self) -> Env {
        *self
    }
}

/// The caller of an invocation.
#[derive(Debug, Clone, PartialEq, Eq)]
pub struct MessageInfo {
    pub sender: Addr,
}

/// Mathematical model of [`MessageInfo`].
pub ghost struct MessageInfoView {
    pub sender: Seq<char>,
}

impl DeepView for MessageInfo {
    type V = MessageInfoView;

    open spec fn deep_view(&self) -> MessageInfoView {
        MessageInfoView {
            sender: self.sender.deep_view(),
        }
    }
}

/// An amount of a native denomination.
#[derive(Debug, Clone, PartialEq, Eq)]
pub struct Coin {
    pub denom: String,
    pub amount: Uint128,
}

/// Mathematical model of [`Coin`].
pub ghost struct CoinView {
    pub denom: Seq<char>,
    pub amount: Uint128,
}

impl DeepView for Coin {
    type V = CoinView;

    open spec fn deep_view(&self) -> CoinView {
        CoinView {
            denom: self.denom.deep_view(),
            amount: self.amount.deep_view(),
        }
    }
}

/// A key and a value logged with a response.
#[derive(Debug, Clone, PartialEq, Eq)]
pub struct Attribute {
    pub key: String,
    pub value: String,
}

/// Mathematical model of [`Attribute`].
pub ghost struct AttributeView {
    pub key: Seq<char>,
    pub value: Seq<char>,
}

impl DeepView for Attribute {
    type V = AttributeView;

    open spec fn deep_view(&self) -> AttributeView {
        AttributeView {
            key: self.key.deep_view(),
            value: self.value.deep_view(),
        }
    }
}

/// What a state-changing entry point hands back.
#[derive(Debug, Clone, PartialEq, Eq)]
pub struct Response {
    pub attributes: Vec<Attribute>,
}

/// Mathematical model of [`Response`].
pub ghost struct ResponseView {
    pub attributes: Seq<AttributeView>,
}

impl DeepView for Response {
    type V = ResponseView;

    open spec fn deep_view(&self) -> ResponseView {
        ResponseView {
            attributes: self.attributes.deep_view(),
        }
    }
}

/// The errors of the engine.
#[derive(Debug, Clone, PartialEq, Eq)]
pub enum StdError {
    /// An input that cannot be compiled, with the reason.
    GenericErr {
        msg: String,
    },
    /// The payload matches no operation of the adapter.
    NotFound {
        kind: String,
    },
    /// A time or amount left the range of its type.
    Overflow {},
}

/// Mathematical model of [`StdError`].
pub ghost enum StdErrorView {
    GenericErr { msg: Seq<char> },
    NotFound { kind: Seq<char> },
    Overflow {},
}

impl DeepView for StdError {
    type V = StdErrorView;

    open spec fn deep_view(&self) -> StdErrorView {
        match self {
            StdError::GenericErr { msg } => StdErrorView::GenericErr { msg: msg.deep_view() },
            StdError::NotFound { kind } => StdErrorView::NotFound { kind: kind.deep_view() },
            StdError::Overflow {} => StdErrorView::Overflow {},
        }
    }
}

/// The errors of the state-changing entry points.
#[derive(Debug, Clone, PartialEq, Eq)]
pub enum ContractError {
    /// An error of the engine.
    Std(StdError),
    /// The caller is not the owner.
    Unauthorized {},
}

/// Mathematical model of [`ContractError`].
pub ghost enum ContractErrorView {
    Std(StdErrorView),
    Unauthorized {},
}

impl DeepView for ContractError {
    type V = ContractErrorView;

    open spec fn deep_view(&self) -> ContractErrorView {
        match self {
            ContractError::Std(inner) => ContractErrorView::Std(inner.deep_view()),
            ContractError::Unauthorized {} => ContractErrorView::Unauthorized {},
        }
    }
}

/// The moment after which a bridged packet is void.
#[derive(Debug, Clone, Copy, PartialEq, Eq)]
pub struct IbcTimeout {
    pub timestamp: Timestamp,
}

impl DeepView for IbcTimeout {
    type V = IbcTimeout;

    open spec fn deep_view(&self) -> IbcTimeout {
        *self
    }
}

/// Messages of the token bridge.
#[derive(Debug, Clone, PartialEq, Eq)]
pub enum IbcMsg {
    /// Sends native tokens over a channel.
    Transfer {
        channel_id: String,
        to_address: String,
        amount: Coin,
        timeout: IbcTimeout,
    },
}

/// Mathematical model of [`IbcMsg`].
pub ghost enum IbcMsgView {
    Transfer {
        channel_id: Seq<char>,
        to_address: Seq<char>,
        amount: CoinView,
        timeout: IbcTimeout,
    },
}

impl DeepView for IbcMsg {
    type V = IbcMsgView;

    open spec fn deep_view(&self) -> IbcMsgView {
        match self {
            IbcMsg::Transfer { channel_id, to_address, amount, timeout } => IbcMsgView::Transfer {
                channel_id: channel_id.deep_view(),
                to_address: to_address.deep_view(),
                amount: amount.deep_view(),
                timeout: timeout.deep_view(),
            },
        }
    }
}

/// Messages of the native staking module.
#[derive(Debug, Clone, PartialEq, Eq)]
pub enum StakingMsg {
    /// Bonds tokens to a validator.
    Delegate {
        validator: String,
        amount: Coin,
    },
    /// Unbonds tokens from a validator.
    Undelegate {
        validator: String,
        amount: Coin,
    },
}

/// Mathematical model of [`StakingMsg`].
pub ghost enum StakingMsgView {
    Delegate { validator: Seq<char>, amount: CoinView },
    Undelegate { validator: Seq<char>, amount: CoinView },
}

impl DeepView for StakingMsg {
    type V = StakingMsgView;

    open spec fn deep_view(&self) -> StakingMsgView {
        match self {
            StakingMsg::Delegate { validator, amount } => StakingMsgView::Delegate {
                validator: validator.deep_view(),
                amount: amount.deep_view(),
            },
            StakingMsg::Undelegate { validator, amount } => StakingMsgView::Undelegate {
                validator: validator.deep_view(),
                amount: amount.deep_view(),
            },
        }
    }
}

/// Messages to contracts.
#[derive(Debug, Clone, PartialEq, Eq)]
pub enum WasmMsg {
    /// Calls a contract, with funds attached.
    Execute {
        contract_addr: String,
        msg: ExecutePayload,
        funds: Vec<Coin>,
    },
}

/// Mathematical model of [`WasmMsg`].
pub ghost enum WasmMsgView {
    Execute { contract_addr: Seq<char>, msg: ExecutePayloadView, funds: Seq<CoinView> },
}

impl DeepView for WasmMsg {
    type V = WasmMsgView;

    open spec fn deep_view(&self) -> WasmMsgView {
        match self {
            WasmMsg::Execute { contract_addr, msg, funds } => WasmMsgView::Execute {
                contract_addr: contract_addr.deep_view(),
                msg: msg.deep_view(),
                funds: funds.deep_view(),
            },
        }
    }
}

/// One outbound instruction.
#[derive(Debug, Clone, PartialEq, Eq)]
pub enum CosmosMsg {
    /// A contract call.
    Wasm(WasmMsg),
    /// A native staking instruction.
    Staking(StakingMsg),
    /// A token bridge instruction.
    Ibc(IbcMsg),
    /// A type-tagged wire message.
    Stargate {
        type_url: String,
        value: Binary,
    },
}

/// Mathematical model of [`CosmosMsg`].
pub ghost enum CosmosMsgView {
    Wasm(WasmMsgView),
    Staking(StakingMsgView),
    Ibc(IbcMsgView),
    Stargate { type_url: Seq<char>, value: Seq<u8> },
}

impl DeepView for CosmosMsg {
    type V = CosmosMsgView;

    open spec fn deep_view(&self) -> CosmosMsgView {
        match self {
            CosmosMsg::Wasm(inner) => CosmosMsgView::Wasm(inner.deep_view()),
            CosmosMsg::Staking(inner) => CosmosMsgView::Staking(inner.deep_view()),
            CosmosMsg::Ibc(inner) => CosmosMsgView::Ibc(inner.deep_view()),
            CosmosMsg::Stargate { type_url, value } => CosmosMsgView::Stargate {
                type_url: type_url.deep_view(),
                value: value.deep_view(),
            },
        }
    }
}

/// A human-readable account or contract address.
pub type Addr = String;

/// Bytes that travel as a payload.
pub type Binary = Vec<u8>;

/// An unsigned 128-bit token quantity.
pub type Uint128 = u128;

/// The result of a read-only entry point.
pub type StdResult<T> = Result<T, StdError>;

/// Nanoseconds in one second.
pub const NANOS_PER_SECOND: u64 = 1_000_000_000;

/// Model of a result, side by side.
pub open spec fn result_view<T: DeepView, E: DeepView>(r: Result<T, E>) -> Result<T::V, E::V> {
    match r {
        Ok(t) => Ok(t.deep_view()),
        Err(e) => Err(e.deep_view()),
    }
}

/// Model of a resolved amount or the error in its place.
pub open spec fn result_amount(r: StdResult<Uint128>) -> Result<u128, StdErrorView> {
    match r {
        Ok(amount) => Ok(amount),
        Err(e) => Err(e.deep_view()),
    }
}

/// Model of the error that names a reason.
pub open spec fn generic_err_view(msg: Seq<char>) -> StdErrorView {
    StdErrorView::GenericErr { msg }
}

/// Model of the error that names what is missing.
pub open spec fn not_found_view(kind: Seq<char>) -> StdErrorView {
    StdErrorView::NotFound { kind }
}

impl StdError {
    /// An error with a reason.
    pub fn generic_err(msg: &str) -> (r: StdError)
        ensures
            r.deep_view() == generic_err_view(msg@),
    {
        StdError::GenericErr { msg: msg.to_owned() }
    }

    /// An error that names what is missing.
    pub fn not_found(kind: &str) -> (r: StdError)
        ensures
            r.deep_view() == not_found_view(kind@),
    {
        StdError::NotFound { kind: kind.to_owned() }
    }

    /// The text of the error.
    pub fn message(&self) -> (r: String)
        ensures
            r@ == self.deep_view().message(),
    {
        match self {
            StdError::GenericErr { msg } => "Generic error: ".to_owned().concat(msg.as_str()),
            StdError::NotFound { kind } => kind.clone().concat(" not found"),
            StdError::Overflow {  } => "Overflow".to_owned(),
        }
    }
}

impl StdErrorView {
    /// The text of the error.
    pub open spec fn message(self) -> Seq<char> {
        match self {
            StdErrorView::GenericErr { msg } => "Generic error: "@ + msg,
            StdErrorView::NotFound { kind } => kind + " not found"@,
            StdErrorView::Overflow {  } => "Overflow"@,
        }
    }
}

impl ContractError {
    /// The text of the error.
    pub fn message(&self) -> (r: String)
        ensures
            r@ == self.deep_view().message(),
    {
        match self {
            ContractError::Std(e) => e.message(),
            ContractError::Unauthorized {  } => "Unauthorized".to_owned(),
        }
    }
}

impl ContractErrorView {
    /// The text of the error.
    pub open spec fn message(self) -> Seq<char> {
        match self {
            ContractErrorView::Std(e) => e.message(),
            ContractErrorView::Unauthorized {  } => "Unauthorized"@,
        }
    }
}

impl Timestamp {
    /// The time that lies `nanos_since_epoch` nanoseconds after the epoch.
    pub fn from_nanos(nanos_since_epoch: u64) -> (r: Timestamp)
        ensures
            r.nanos == nanos_since_epoch,
    {
        Timestamp { nanos: nanos_since_epoch }
    }

    /// Nanoseconds since the epoch.
    pub fn nanos(&self) -> (r: u64)
        ensures
            r == self.nanos,
    {
        self.nanos
    }
}

impl IbcTimeout {
    /// The timeout that falls at a given time.
    pub fn with_timestamp(timestamp: Timestamp) -> (r: IbcTimeout)
        ensures
            r.timestamp == timestamp,
    {
        IbcTimeout { timestamp }
    }
}

/// A field after an update: the override where one is given, else the field as it was.
pub open spec fn overridden<T>(current: T, given: Option<T>) -> T {
    match given {
        Some(value) => value,
        None => current,
    }
}

/// Model of the response that logs nothing.
pub open spec fn empty_response_view() -> ResponseView {
    ResponseView { attributes: Seq::empty() }
}

/// Model of the response that logs one action.
pub open spec fn action_response_view(action: Seq<char>) -> ResponseView {
    ResponseView { attributes: seq![AttributeView { key: "action"@, value: action }] }
}

impl Response {
    /// The response that logs nothing.
    pub fn new() -> (r: Response)
        ensures
            r.deep_view() == empty_response_view(),
    {
        let r = Response { attributes: Vec::new() };
        assert(r.attributes.deep_view() =~= Seq::empty());
        r
    }

    /// The response that logs one action.
    pub fn action(name: &str) -> (r: Response)
        ensures
            r.deep_view() == action_response_view(name@),
    {
        let mut attributes: Vec<Attribute> = Vec::new();
        attributes.push(Attribute { key: "action".to_owned(), value: name.to_owned() });
        let r = Response { attributes };
        assert(r.attributes.deep_view() =~= seq![AttributeView { key: "action"@, value: name@ }]);
        r
    }
}

impl Default for Response {
    fn default() -> (r: Response)
        ensures
            r.deep_view() == empty_response_view(),
    {
        Response::new()
    }
}

} // verus!
