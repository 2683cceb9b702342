//! The calls of the adapter and the operations that it compiles.

use crate::gateway::{Step, StepView};
use crate::types::{Addr, Uint128};
use vstd::prelude::*;

verus! {

/// The first configuration.
#[derive(Debug, Clone, PartialEq, Eq)]
pub struct InstantiateMsg {
    pub owner: Addr,
    pub chain_id: String,
    /// The connection that carries the interchain-account channel.
    pub ica_connection_id: String,
    /// Seconds after which a packet between controller and host account is void.
    pub timeout_default: u64,
}

/// Mathematical model of [`InstantiateMsg`].
pub ghost struct InstantiateMsgView {
    pub owner: Seq<char>,
    pub chain_id: Seq<char>,
    pub ica_connection_id: Seq<char>,
    pub timeout_default: u64,
}

impl DeepView for InstantiateMsg {
    type V = InstantiateMsgView;

    open spec fn deep_view(&self) -> InstantiateMsgView {
        InstantiateMsgView {
            owner: self.owner.deep_view(),
            chain_id: self.chain_id.deep_view(),
            ica_connection_id: self.ica_connection_id.deep_view(),
            timeout_default: self.timeout_default.deep_view(),
        }
    }
}

/// The state-changing calls.
#[derive(Debug, Clone, PartialEq, Eq)]
pub enum ExecuteMsg {
    /// Overrides the fields that are given. Only the owner may.
    UpdateConfig {
        owner: Option<Addr>,
        timeout_default: Option<u64>,
    },
}

/// Mathematical model of [`ExecuteMsg`].
pub ghost enum ExecuteMsgView {
    UpdateConfig { owner: Option<Seq<char>>, timeout_default: Option<u64> },
}

impl DeepView for ExecuteMsg {
    type V = ExecuteMsgView;

    open spec fn deep_view(&self) -> ExecuteMsgView {
        match self {
            ExecuteMsg::UpdateConfig { owner, timeout_default } => ExecuteMsgView::UpdateConfig {
                owner: owner.deep_view(),
                timeout_default: timeout_default.deep_view(),
            },
        }
    }
}

/// The read-only calls.
#[derive(Debug, Clone, PartialEq, Eq)]
pub enum QueryMsg {
    /// Compiles a decoded operation.
    Messages {
        msg: Option<IcaOperations>,
    },
    /// Reads the configuration.
    Config {},
}

/// Mathematical model of [`QueryMsg`].
pub ghost enum QueryMsgView {
    Messages { msg: Option<IcaOperationsView> },
    Config {},
}

impl DeepView for QueryMsg {
    type V = QueryMsgView;

    open spec fn deep_view(&self) -> QueryMsgView {
        match self {
            QueryMsg::Messages { msg } => QueryMsgView::Messages { msg: msg.deep_view() },
            QueryMsg::Config {} => QueryMsgView::Config {},
        }
    }
}

/// The configuration as it is read out.
#[derive(Debug, Clone, PartialEq, Eq)]
pub struct ConfigResponse {
    pub owner: Addr,
    pub chain_id: String,
    /// The connection that carries the interchain-account channel.
    pub ica_connection_id: String,
    /// Seconds after which a packet between controller and host account is void.
    pub timeout_default: u64,
}

/// Mathematical model of [`ConfigResponse`].
pub ghost struct ConfigResponseView {
    pub owner: Seq<char>,
    pub chain_id: Seq<char>,
    pub ica_connection_id: Seq<char>,
    pub timeout_default: u64,
}

impl DeepView for ConfigResponse {
    type V = ConfigResponseView;

    open spec fn deep_view(&self) -> ConfigResponseView {
        ConfigResponseView {
            owner: self.owner.deep_view(),
            chain_id: self.chain_id.deep_view(),
            ica_connection_id: self.ica_connection_id.deep_view(),
            timeout_default: self.timeout_default.deep_view(),
        }
    }
}

/// Nothing: migration changes no state.
#[derive(Debug, Clone, Copy, PartialEq, Eq)]
pub struct MigrateMsg {}

impl DeepView for MigrateMsg {
    type V = MigrateMsg;

    open spec fn deep_view(&self) -> MigrateMsg {
        *self
    }
}

/// The answers to the read-only calls.
#[derive(Debug, Clone, PartialEq, Eq)]
pub enum QueryResponse {
    /// The compiled operation.
    Messages(Step),
    /// The configuration.
    Config(ConfigResponse),
}

/// Mathematical model of [`QueryResponse`].
pub ghost enum QueryResponseView {
    Messages(StepView),
    Config(ConfigResponseView),
}

impl DeepView for QueryResponse {
    type V = QueryResponseView;

    open spec fn deep_view(&self) -> QueryResponseView {
        match self {
            QueryResponse::Messages(inner) => QueryResponseView::Messages(inner.deep_view()),
            QueryResponse::Config(inner) => QueryResponseView::Config(inner.deep_view()),
        }
    }
}

/// The operations of the adapter.
#[derive(Debug, Clone, PartialEq, Eq)]
pub enum IcaOperations {
    TransferToHostChain {
        executor_addr: String,
        denom: String,
        amount: Uint128,
        receiver: String,
        source_port: String,
        source_channel: String,
    },
    TransferFromHostChain {
        executor_addr: String,
        denom: String,
        amount: Uint128,
        sender: String,
        receiver: String,
        source_port: String,
        source_channel: String,
    },
    DelegateOnHostChain {
        executor_addr: String,
        delegator: String,
        validator: String,
        denom: String,
        amount: Uint128,
    },
    RegisterInterchainAccount {
        executor_addr: String,
    },
}

/// Mathematical model of [`IcaOperations`].
pub ghost enum IcaOperationsView {
    TransferToHostChain {
        executor_addr: Seq<char>,
        denom: Seq<char>,
        amount: Uint128,
        receiver: Seq<char>,
        source_port: Seq<char>,
        source_channel: Seq<char>,
    },
    TransferFromHostChain {
        executor_addr: Seq<char>,
        denom: Seq<char>,
        amount: Uint128,
        sender: Seq<char>,
        receiver: Seq<char>,
        source_port: Seq<char>,
        source_channel: Seq<char>,
    },
    DelegateOnHostChain {
        executor_addr: Seq<char>,
        delegator: Seq<char>,
        validator: Seq<char>,
        denom: Seq<char>,
        amount: Uint128,
    },
    RegisterInterchainAccount { executor_addr: Seq<char> },
}

impl DeepView for IcaOperations {
    type V = IcaOperationsView;

    open spec fn deep_view(&self) -> IcaOperationsView {
        match self {
            IcaOperations::TransferToHostChain {
                executor_addr,
                denom,
                amount,
                receiver,
                source_port,
                source_channel,
            } => IcaOperationsView::TransferToHostChain {
                executor_addr: executor_addr.deep_view(),
                denom: denom.deep_view(),
                amount: amount.deep_view(),
                receiver: receiver.deep_view(),
                source_port: source_port.deep_view(),
                source_channel: source_channel.deep_view(),
            },
            IcaOperations::TransferFromHostChain {
                executor_addr,
                denom,
                amount,
                sender,
                receiver,
                source_port,
                source_channel,
            } => IcaOperationsView::TransferFromHostChain {
                executor_addr: executor_addr.deep_view(),
                denom: denom.deep_view(),
                amount: amount.deep_view(),
                sender: sender.deep_view(),
                receiver: receiver.deep_view(),
                source_port: source_port.deep_view(),
                source_channel: source_channel.deep_view(),
            },
            IcaOperations::DelegateOnHostChain {
                executor_addr,
                delegator,
                validator,
                denom,
                amount,
            } => IcaOperationsView::DelegateOnHostChain {
                executor_addr: executor_addr.deep_view(),
                delegator: delegator.deep_view(),
                validator: validator.deep_view(),
                denom: denom.deep_view(),
                amount: amount.deep_view(),
            },
            IcaOperations::RegisterInterchainAccount {
                executor_addr,
            } => IcaOperationsView::RegisterInterchainAccount {
                executor_addr: executor_addr.deep_view(),
            },
        }
    }
}

} // verus!
