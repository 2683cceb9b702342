//! The calls of the adapter and the operations that it compiles.

use crate::gateway::{Step, StepView};
use crate::oraidex::asset::{Asset, AssetInfo, AssetInfoView, AssetView};
use crate::oraidex::router::{SwapOperation, SwapOperationView};
use crate::resolver::{fill, filled};
use crate::types::{Addr, Decimal, Uint128};
use vstd::prelude::*;

verus! {

/// The first configuration.
#[derive(Debug, Clone, PartialEq, Eq)]
pub struct InstantiateMsg {
    pub owner: Addr,
    pub oraiswap_router: Addr,
    pub oraiswap_staking: Addr,
}

/// Mathematical model of [`InstantiateMsg`].
pub ghost struct InstantiateMsgView {
    pub owner: Seq<char>,
    pub oraiswap_router: Seq<char>,
    pub oraiswap_staking: Seq<char>,
}

impl DeepView for InstantiateMsg {
    type V = InstantiateMsgView;

    open spec fn deep_view(&self) -> InstantiateMsgView {
        InstantiateMsgView {
            owner: self.owner.deep_view(),
            oraiswap_router: self.oraiswap_router.deep_view(),
            oraiswap_staking: self.oraiswap_staking.deep_view(),
        }
    }
}

/// The state-changing calls.
#[derive(Debug, Clone, PartialEq, Eq)]
pub enum ExecuteMsg {
    /// Overrides the fields that are given. Only the owner may.
    UpdateConfig {
        owner: Option<Addr>,
        oraiswap_router: Option<Addr>,
        oraiswap_staking: Option<Addr>,
    },
}

/// Mathematical model of [`ExecuteMsg`].
pub ghost enum ExecuteMsgView {
    UpdateConfig {
        owner: Option<Seq<char>>,
        oraiswap_router: Option<Seq<char>>,
        oraiswap_staking: Option<Seq<char>>,
    },
}

impl DeepView for ExecuteMsg {
    type V = ExecuteMsgView;

    open spec fn deep_view(&self) -> ExecuteMsgView {
        match self {
            ExecuteMsg::UpdateConfig {
                owner,
                oraiswap_router,
                oraiswap_staking,
            } => ExecuteMsgView::UpdateConfig {
                owner: owner.deep_view(),
                oraiswap_router: oraiswap_router.deep_view(),
                oraiswap_staking: oraiswap_staking.deep_view(),
            },
        }
    }
}

/// The read-only calls.
#[derive(Debug, Clone, PartialEq, Eq)]
pub enum QueryMsg {
    /// Compiles a decoded operation.
    Messages {
        msg: Option<Operations>,
    },
    /// Reads the configuration.
    Config {},
}

/// Mathematical model of [`QueryMsg`].
pub ghost enum QueryMsgView {
    Messages { msg: Option<OperationsView> },
    Config {},
}

impl DeepView for QueryMsg {
    type V = QueryMsgView;

    open spec fn deep_view(&self) -> QueryMsgView {
        match self {
            QueryMsg::Messages { msg } => QueryMsgView::Messages { msg: msg.deep_view() },
            QueryMsg::Config {} => QueryMsgView::Config {},
        }
    }
}

/// The configuration as it is read out.
#[derive(Debug, Clone, PartialEq, Eq)]
pub struct ConfigResponse {
    pub owner: Addr,
    pub oraiswap_router: Addr,
    pub oraiswap_staking: Addr,
}

/// Mathematical model of [`ConfigResponse`].
pub ghost struct ConfigResponseView {
    pub owner: Seq<char>,
    pub oraiswap_router: Seq<char>,
    pub oraiswap_staking: Seq<char>,
}

impl DeepView for ConfigResponse {
    type V = ConfigResponseView;

    open spec fn deep_view(&self) -> ConfigResponseView {
        ConfigResponseView {
            owner: self.owner.deep_view(),
            oraiswap_router: self.oraiswap_router.deep_view(),
            oraiswap_staking: self.oraiswap_staking.deep_view(),
        }
    }
}

/// Nothing: migration changes no state.
#[derive(Debug, Clone, Copy, PartialEq, Eq)]
pub struct MigrateMsg {}

impl DeepView for MigrateMsg {
    type V = MigrateMsg;

    open spec fn deep_view(&self) -> MigrateMsg {
        *self
    }
}

/// The answers to the read-only calls.
#[derive(Debug, Clone, PartialEq, Eq)]
pub enum QueryResponse {
    /// The compiled operation.
    Messages(Step),
    /// The configuration.
    Config(ConfigResponse),
}

/// Mathematical model of [`QueryResponse`].
pub ghost enum QueryResponseView {
    Messages(StepView),
    Config(ConfigResponseView),
}

impl DeepView for QueryResponse {
    type V = QueryResponseView;

    open spec fn deep_view(&self) -> QueryResponseView {
        match self {
            QueryResponse::Messages(inner) => QueryResponseView::Messages(inner.deep_view()),
            QueryResponse::Config(inner) => QueryResponseView::Config(inner.deep_view()),
        }
    }
}

/// The operations of the adapter.
#[allow(inconsistent_fields)]
#[derive(Debug, Clone, PartialEq, Eq)]
pub enum Operations {
    /// Swaps along a route, funded by the sender.
    SwapOperations {
        executor_addr: Addr,
        sender: Addr,
        amount: Option<Uint128>,
        operations: Vec<SwapOperation>,
        minimum_receive: Option<Uint128>,
        to: Option<Addr>,
    },
    ProvideLiquidity {
        pair_contract: Addr,
        assets: [Asset; 2],
        slippage_tolerance: Option<Decimal>,
        receiver: Option<Addr>,
    },
    WithdrawLiquidity {
        sender: Option<Addr>,
        pair_contract: Addr,
        lp_token: Addr,
        amount: Option<Uint128>,
    },
    Bond {
        sender: Option<Addr>,
        lp_token: Addr,
        asset_info: AssetInfo,
        amount: Option<Uint128>,
    },
    Unbond {
        sender: Option<Addr>,
        asset_info: AssetInfo,
        amount: Option<Uint128>,
    },
    /// Withdraws pending rewards: of one pool, or of all where none is named.
    Withdraw {
        asset_info: Option<AssetInfo>,
    },
}

/// Mathematical model of [`Operations`].
#[allow(inconsistent_fields)]
pub ghost enum OperationsView {
    SwapOperations {
        executor_addr: Seq<char>,
        sender: Seq<char>,
        amount: Option<Uint128>,
        operations: Seq<SwapOperationView>,
        minimum_receive: Option<Uint128>,
        to: Option<Seq<char>>,
    },
    ProvideLiquidity {
        pair_contract: Seq<char>,
        assets: Seq<AssetView>,
        slippage_tolerance: Option<Decimal>,
        receiver: Option<Seq<char>>,
    },
    WithdrawLiquidity {
        sender: Option<Seq<char>>,
        pair_contract: Seq<char>,
        lp_token: Seq<char>,
        amount: Option<Uint128>,
    },
    Bond {
        sender: Option<Seq<char>>,
        lp_token: Seq<char>,
        asset_info: AssetInfoView,
        amount: Option<Uint128>,
    },
    Unbond { sender: Option<Seq<char>>, asset_info: AssetInfoView, amount: Option<Uint128> },
    Withdraw { asset_info: Option<AssetInfoView> },
}

impl DeepView for Operations {
    type V = OperationsView;

    open spec fn deep_view(&self) -> OperationsView {
        match self {
            Operations::SwapOperations {
                executor_addr,
                sender,
                amount,
                operations,
                minimum_receive,
                to,
            } => OperationsView::SwapOperations {
                executor_addr: executor_addr.deep_view(),
                sender: sender.deep_view(),
                amount: amount.deep_view(),
                operations: operations.deep_view(),
                minimum_receive: minimum_receive.deep_view(),
                to: to.deep_view(),
            },
            Operations::ProvideLiquidity {
                pair_contract,
                assets,
                slippage_tolerance,
                receiver,
            } => OperationsView::ProvideLiquidity {
                pair_contract: pair_contract.deep_view(),
                assets: assets.deep_view(),
                slippage_tolerance: slippage_tolerance.deep_view(),
                receiver: receiver.deep_view(),
            },
            Operations::WithdrawLiquidity {
                sender,
                pair_contract,
                lp_token,
                amount,
            } => OperationsView::WithdrawLiquidity {
                sender: sender.deep_view(),
                pair_contract: pair_contract.deep_view(),
                lp_token: lp_token.deep_view(),
                amount: amount.deep_view(),
            },
            Operations::Bond { sender, lp_token, asset_info, amount } => OperationsView::Bond {
                sender: sender.deep_view(),
                lp_token: lp_token.deep_view(),
                asset_info: asset_info.deep_view(),
                amount: amount.deep_view(),
            },
            Operations::Unbond { sender, asset_info, amount } => OperationsView::Unbond {
                sender: sender.deep_view(),
                asset_info: asset_info.deep_view(),
                amount: amount.deep_view(),
            },
            Operations::Withdraw { asset_info } => OperationsView::Withdraw {
                asset_info: asset_info.deep_view(),
            },
        }
    }
}

impl OperationsView {
    /// The operation with its open amount filled.
    pub open spec fn fill_amount(self, amount: u128) -> OperationsView {
        match self {
            OperationsView::SwapOperations {
                executor_addr,
                sender,
                amount: open,
                operations,
                minimum_receive,
                to,
            } => OperationsView::SwapOperations {
                executor_addr,
                sender,
                amount: filled(open, amount),
                operations,
                minimum_receive,
                to,
            },
            OperationsView::WithdrawLiquidity { sender, pair_contract, lp_token, amount: open } => {
                OperationsView::WithdrawLiquidity {
                    sender,
                    pair_contract,
                    lp_token,
                    amount: filled(open, amount),
                }
            },
            OperationsView::Bond { sender, lp_token, asset_info, amount: open } => {
                OperationsView::Bond { sender, lp_token, asset_info, amount: filled(open, amount) }
            },
            OperationsView::Unbond { sender, asset_info, amount: open } => OperationsView::Unbond {
                sender,
                asset_info,
                amount: filled(open, amount),
            },
            other => other,
        }
    }
}

impl Operations {
    /// The operation with its open amount filled with what the chain reported. An operation
    /// that names its amount, or has none, stays as it is.
    pub fn fill_amount(self, amount: Uint128) -> (r: Operations)
        ensures
            r.deep_view() == self.deep_view().fill_amount(amount),
    {
        match self {
            Operations::SwapOperations {
                executor_addr,
                sender,
                amount: open,
                operations,
                minimum_receive,
                to,
            } => Operations::SwapOperations {
                executor_addr,
                sender,
                amount: fill(open, amount),
                operations,
                minimum_receive,
                to,
            },
            Operations::WithdrawLiquidity { sender, pair_contract, lp_token, amount: open } => {
                Operations::WithdrawLiquidity {
                    sender,
                    pair_contract,
                    lp_token,
                    amount: fill(open, amount),
                }
            },
            Operations::Bond { sender, lp_token, asset_info, amount: open } => Operations::Bond {
                sender,
                lp_token,
                asset_info,
                amount: fill(open, amount),
            },
            Operations::Unbond { sender, asset_info, amount: open } => Operations::Unbond {
                sender,
                asset_info,
                amount: fill(open, amount),
            },
            other => other,
        }
    }
}

} // verus!
