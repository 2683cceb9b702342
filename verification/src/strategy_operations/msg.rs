//! The calls of the adapter and the operations that it compiles.

use crate::gateway::{Step, StepView};
use crate::types::Addr;
use vstd::prelude::*;

verus! {

/// The first configuration.
#[derive(Debug, Clone, PartialEq, Eq)]
pub struct InstantiateMsg {
    pub owner: Addr,
    pub strategy_contract: Addr,
}

/// Mathematical model of [`InstantiateMsg`].
pub ghost struct InstantiateMsgView {
    pub owner: Seq<char>,
    pub strategy_contract: Seq<char>,
}

impl DeepView for InstantiateMsg {
    type V = InstantiateMsgView;

    open spec fn deep_view(&self) -> InstantiateMsgView {
        InstantiateMsgView {
            owner: self.owner.deep_view(),
            strategy_contract: self.strategy_contract.deep_view(),
        }
    }
}

/// The state-changing calls.
#[derive(Debug, Clone, PartialEq, Eq)]
pub enum ExecuteMsg {
    /// Overrides the fields that are given. Only the owner may.
    UpdateConfig {
        owner: Option<Addr>,
        strategy_contract: Option<Addr>,
    },
}

/// Mathematical model of [`ExecuteMsg`].
pub ghost enum ExecuteMsgView {
    UpdateConfig { owner: Option<Seq<char>>, strategy_contract: Option<Seq<char>> },
}

impl DeepView for ExecuteMsg {
    type V = ExecuteMsgView;

    open spec fn deep_view(&self) -> ExecuteMsgView {
        match self {
            ExecuteMsg::UpdateConfig { owner, strategy_contract } => ExecuteMsgView::UpdateConfig {
                owner: owner.deep_view(),
                strategy_contract: strategy_contract.deep_view(),
            },
        }
    }
}

/// The read-only calls.
#[derive(Debug, Clone, PartialEq, Eq)]
pub enum QueryMsg {
    /// Compiles a decoded operation.
    Messages {
        msg: Option<StrategyOperations>,
    },
    /// Reads the configuration.
    Config {},
}

/// Mathematical model of [`QueryMsg`].
pub ghost enum QueryMsgView {
    Messages { msg: Option<StrategyOperationsView> },
    Config {},
}

impl DeepView for QueryMsg {
    type V = QueryMsgView;

    open spec fn deep_view(&self) -> QueryMsgView {
        match self {
            QueryMsg::Messages { msg } => QueryMsgView::Messages { msg: msg.deep_view() },
            QueryMsg::Config {} => QueryMsgView::Config {},
        }
    }
}

/// The configuration as it is read out.
#[derive(Debug, Clone, PartialEq, Eq)]
pub struct ConfigResponse {
    pub owner: Addr,
    pub strategy_contract: Addr,
}

/// Mathematical model of [`ConfigResponse`].
pub ghost struct ConfigResponseView {
    pub owner: Seq<char>,
    pub strategy_contract: Seq<char>,
}

impl DeepView for ConfigResponse {
    type V = ConfigResponseView;

    open spec fn deep_view(&self) -> ConfigResponseView {
        ConfigResponseView {
            owner: self.owner.deep_view(),
            strategy_contract: self.strategy_contract.deep_view(),
        }
    }
}

/// Nothing: migration changes no state.
#[derive(Debug, Clone, Copy, PartialEq, Eq)]
pub struct MigrateMsg {}

impl DeepView for MigrateMsg {
    type V = MigrateMsg;

    open spec fn deep_view(&self) -> MigrateMsg {
        *self
    }
}

/// The answers to the read-only calls.
#[derive(Debug, Clone, PartialEq, Eq)]
pub enum QueryResponse {
    /// The compiled operation.
    Messages(Step),
    /// The configuration.
    Config(ConfigResponse),
}

/// Mathematical model of [`QueryResponse`].
pub ghost enum QueryResponseView {
    Messages(StepView),
    Config(ConfigResponseView),
}

impl DeepView for QueryResponse {
    type V = QueryResponseView;

    open spec fn deep_view(&self) -> QueryResponseView {
        match self {
            QueryResponse::Messages(inner) => QueryResponseView::Messages(inner.deep_view()),
            QueryResponse::Config(inner) => QueryResponseView::Config(inner.deep_view()),
        }
    }
}

/// The operations of the adapter.
#[derive(Debug, Clone, PartialEq, Eq)]
pub enum StrategyOperations {
    VerifyStrategy {
        creator: Addr,
        id: String,
    },
}

/// Mathematical model of [`StrategyOperations`].
pub ghost enum StrategyOperationsView {
    VerifyStrategy { creator: Seq<char>, id: Seq<char> },
}

impl DeepView for StrategyOperations {
    type V = StrategyOperationsView;

    open spec fn deep_view(&self) -> StrategyOperationsView {
        match self {
            StrategyOperations::VerifyStrategy {
                creator,
                id,
            } => StrategyOperationsView::VerifyStrategy {
                creator: creator.deep_view(),
                id: id.deep_view(),
            },
        }
    }
}

} // verus!
