//! The calls of the adapter and the operations that it compiles.

use crate::gateway::{Step, StepView};
use crate::orchai::orai_staking::{BondType, UnBondType};
use crate::resolver::{fill, filled};
use crate::types::{Addr, Uint128};
use vstd::prelude::*;

verus! {

/// The first configuration.
#[derive(Debug, Clone, PartialEq, Eq)]
pub struct InstantiateMsg {
    pub owner: Addr,
    pub orai_staking_hub: Addr,
    pub orai_staking_reward: Addr,
    pub orai_staking_denom: String,
}

/// Mathematical model of [`InstantiateMsg`].
pub ghost struct InstantiateMsgView {
    pub owner: Seq<char>,
    pub orai_staking_hub: Seq<char>,
    pub orai_staking_reward: Seq<char>,
    pub orai_staking_denom: Seq<char>,
}

impl DeepView for InstantiateMsg {
    type V = InstantiateMsgView;

    open spec fn deep_view(&self) -> InstantiateMsgView {
        InstantiateMsgView {
            owner: self.owner.deep_view(),
            orai_staking_hub: self.orai_staking_hub.deep_view(),
            orai_staking_reward: self.orai_staking_reward.deep_view(),
            orai_staking_denom: self.orai_staking_denom.deep_view(),
        }
    }
}

/// The state-changing calls.
#[derive(Debug, Clone, PartialEq, Eq)]
pub enum ExecuteMsg {
    /// Overrides the fields that are given. Only the owner may.
    UpdateConfig {
        owner: Option<Addr>,
        orai_staking_hub: Option<Addr>,
        orai_staking_reward: Option<Addr>,
        orai_staking_denom: Option<String>,
    },
}

/// Mathematical model of [`ExecuteMsg`].
pub ghost enum ExecuteMsgView {
    UpdateConfig {
        owner: Option<Seq<char>>,
        orai_staking_hub: Option<Seq<char>>,
        orai_staking_reward: Option<Seq<char>>,
        orai_staking_denom: Option<Seq<char>>,
    },
}

impl DeepView for ExecuteMsg {
    type V = ExecuteMsgView;

    open spec fn deep_view(&self) -> ExecuteMsgView {
        match self {
            ExecuteMsg::UpdateConfig {
                owner,
                orai_staking_hub,
                orai_staking_reward,
                orai_staking_denom,
            } => ExecuteMsgView::UpdateConfig {
                owner: owner.deep_view(),
                orai_staking_hub: orai_staking_hub.deep_view(),
                orai_staking_reward: orai_staking_reward.deep_view(),
                orai_staking_denom: orai_staking_denom.deep_view(),
            },
        }
    }
}

/// The read-only calls.
#[derive(Debug, Clone, PartialEq, Eq)]
pub enum QueryMsg {
    /// Compiles a decoded operation.
    Messages {
        msg: Option<StakingOperations>,
    },
    /// Reads the configuration.
    Config {},
}

/// Mathematical model of [`QueryMsg`].
pub ghost enum QueryMsgView {
    Messages { msg: Option<StakingOperationsView> },
    Config {},
}

impl DeepView for QueryMsg {
    type V = QueryMsgView;

    open spec fn deep_view(&self) -> QueryMsgView {
        match self {
            QueryMsg::Messages { msg } => QueryMsgView::Messages { msg: msg.deep_view() },
            QueryMsg::Config {} => QueryMsgView::Config {},
        }
    }
}

/// The configuration as it is read out.
#[derive(Debug, Clone, PartialEq, Eq)]
pub struct ConfigResponse {
    pub owner: Addr,
    pub orai_staking_hub: Addr,
    pub orai_staking_reward: Addr,
    pub orai_staking_denom: String,
}

/// Mathematical model of [`ConfigResponse`].
pub ghost struct ConfigResponseView {
    pub owner: Seq<char>,
    pub orai_staking_hub: Seq<char>,
    pub orai_staking_reward: Seq<char>,
    pub orai_staking_denom: Seq<char>,
}

impl DeepView for ConfigResponse {
    type V = ConfigResponseView;

    open spec fn deep_view(&self) -> ConfigResponseView {
        ConfigResponseView {
            owner: self.owner.deep_view(),
            orai_staking_hub: self.orai_staking_hub.deep_view(),
            orai_staking_reward: self.orai_staking_reward.deep_view(),
            orai_staking_denom: self.orai_staking_denom.deep_view(),
        }
    }
}

/// Nothing: migration changes no state.
#[derive(Debug, Clone, Copy, PartialEq, Eq)]
pub struct MigrateMsg {}

impl DeepView for MigrateMsg {
    type V = MigrateMsg;

    open spec fn deep_view(&self) -> MigrateMsg {
        *self
    }
}

/// The answers to the read-only calls.
#[derive(Debug, Clone, PartialEq, Eq)]
pub enum QueryResponse {
    /// The compiled operation.
    Messages(Step),
    /// The configuration.
    Config(ConfigResponse),
}

/// Mathematical model of [`QueryResponse`].
pub ghost enum QueryResponseView {
    Messages(StepView),
    Config(ConfigResponseView),
}

impl DeepView for QueryResponse {
    type V = QueryResponseView;

    open spec fn deep_view(&self) -> QueryResponseView {
        match self {
            QueryResponse::Messages(inner) => QueryResponseView::Messages(inner.deep_view()),
            QueryResponse::Config(inner) => QueryResponseView::Config(inner.deep_view()),
        }
    }
}

/// The operations of the adapter.
#[allow(inconsistent_fields)]
#[derive(Debug, Clone, PartialEq, Eq)]
pub enum StakingOperations {
    Bond {
        sender: Option<Addr>,
        bond_type: BondType,
        amount: Option<Uint128>,
    },
    WithdrawUnbonded {
        unbond_type: UnBondType,
    },
    Unbond {
        executor_addr: Addr,
        sender: Addr,
        token: Addr,
        amount: Option<Uint128>,
    },
    /// Pays the accrued reward out.
    ClaimRewards {
        recipient: Option<String>,
    },
    Convert {
        executor_addr: Addr,
        sender: Addr,
        from_token: Addr,
        amount: Option<Uint128>,
    },
}

/// Mathematical model of [`StakingOperations`].
#[allow(inconsistent_fields)]
pub ghost enum StakingOperationsView {
    Bond { sender: Option<Seq<char>>, bond_type: BondType, amount: Option<Uint128> },
    WithdrawUnbonded { unbond_type: UnBondType },
    Unbond {
        executor_addr: Seq<char>,
        sender: Seq<char>,
        token: Seq<char>,
        amount: Option<Uint128>,
    },
    ClaimRewards { recipient: Option<Seq<char>> },
    Convert {
        executor_addr: Seq<char>,
        sender: Seq<char>,
        from_token: Seq<char>,
        amount: Option<Uint128>,
    },
}

impl DeepView for StakingOperations {
    type V = StakingOperationsView;

    open spec fn deep_view(&self) -> StakingOperationsView {
        match self {
            StakingOperations::Bond { sender, bond_type, amount } => StakingOperationsView::Bond {
                sender: sender.deep_view(),
                bond_type: bond_type.deep_view(),
                amount: amount.deep_view(),
            },
            StakingOperations::WithdrawUnbonded {
                unbond_type,
            } => StakingOperationsView::WithdrawUnbonded {
                unbond_type: unbond_type.deep_view(),
            },
            StakingOperations::Unbond {
                executor_addr,
                sender,
                token,
                amount,
            } => StakingOperationsView::Unbond {
                executor_addr: executor_addr.deep_view(),
                sender: sender.deep_view(),
                token: token.deep_view(),
                amount: amount.deep_view(),
            },
            StakingOperations::ClaimRewards { recipient } => StakingOperationsView::ClaimRewards {
                recipient: recipient.deep_view(),
            },
            StakingOperations::Convert {
                executor_addr,
                sender,
                from_token,
                amount,
            } => StakingOperationsView::Convert {
                executor_addr: executor_addr.deep_view(),
                sender: sender.deep_view(),
                from_token: from_token.deep_view(),
                amount: amount.deep_view(),
            },
        }
    }
}

impl StakingOperationsView {
    /// The operation with its open amount filled.
    pub open spec fn fill_amount(self, amount: u128) -> StakingOperationsView {
        match self {
            StakingOperationsView::Bond { sender, bond_type, amount: open } => {
                StakingOperationsView::Bond { sender, bond_type, amount: filled(open, amount) }
            },
            StakingOperationsView::Unbond { executor_addr, sender, token, amount: open } => {
                StakingOperationsView::Unbond {
                    executor_addr,
                    sender,
                    token,
                    amount: filled(open, amount),
                }
            },
            StakingOperationsView::Convert { executor_addr, sender, from_token, amount: open } => {
                StakingOperationsView::Convert {
                    executor_addr,
                    sender,
                    from_token,
                    amount: filled(open, amount),
                }
            },
            other => other,
        }
    }
}

impl StakingOperations {
    /// The operation with its open amount filled with what the chain reported. An operation
    /// that names its amount, or has none, stays as it is.
    pub fn fill_amount(self, amount: Uint128) -> (r: StakingOperations)
        ensures
            r.deep_view() == self.deep_view().fill_amount(amount),
    {
        match self {
            StakingOperations::Bond { sender, bond_type, amount: open } => StakingOperations::Bond {
                sender,
                bond_type,
                amount: fill(open, amount),
            },
            StakingOperations::Unbond { executor_addr, sender, token, amount: open } => {
                StakingOperations::Unbond {
                    executor_addr,
                    sender,
                    token,
                    amount: fill(open, amount),
                }
            },
            StakingOperations::Convert { executor_addr, sender, from_token, amount: open } => {
                StakingOperations::Convert {
                    executor_addr,
                    sender,
                    from_token,
                    amount: fill(open, amount),
                }
            },
            other => other,
        }
    }
}

} // verus!
