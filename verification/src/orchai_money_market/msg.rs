//! The calls of the adapter and the operations that it compiles.

use crate::gateway::{Step, StepView};
use crate::resolver::{fill, filled};
use crate::types::{Addr, Uint128};
use crate::uint256::Uint256;
use vstd::prelude::*;

verus! {

/// The first configuration.
#[derive(Debug, Clone, PartialEq, Eq)]
pub struct InstantiateMsg {
    pub owner: Addr,
    pub overseer: Addr,
    pub market: Addr,
    pub liquidation: Addr,
    pub stable_addr: Addr,
    pub a_stable_contract: Addr,
    pub a_stable_contract_reward: Addr,
}

/// Mathematical model of [`InstantiateMsg`].
pub ghost struct InstantiateMsgView {
    pub owner: Seq<char>,
    pub overseer: Seq<char>,
    pub market: Seq<char>,
    pub liquidation: Seq<char>,
    pub stable_addr: Seq<char>,
    pub a_stable_contract: Seq<char>,
    pub a_stable_contract_reward: Seq<char>,
}

impl DeepView for InstantiateMsg {
    type V = InstantiateMsgView;

    open spec fn deep_view(&self) -> InstantiateMsgView {
        InstantiateMsgView {
            owner: self.owner.deep_view(),
            overseer: self.overseer.deep_view(),
            market: self.market.deep_view(),
            liquidation: self.liquidation.deep_view(),
            stable_addr: self.stable_addr.deep_view(),
            a_stable_contract: self.a_stable_contract.deep_view(),
            a_stable_contract_reward: self.a_stable_contract_reward.deep_view(),
        }
    }
}

/// The state-changing calls.
#[derive(Debug, Clone, PartialEq, Eq)]
pub enum ExecuteMsg {
    /// Records the custody contract of a collateral token. Only the owner may.
    RegisterCollateral {
        collateral: Addr,
        custody_contract: Addr,
    },
    /// Overrides the fields that are given. Only the owner may.
    UpdateConfig {
        owner: Option<Addr>,
        overseer: Option<Addr>,
        market: Option<Addr>,
        liquidation: Option<Addr>,
        stable_addr: Option<Addr>,
        a_stable_contract: Option<Addr>,
        a_stable_contract_reward: Option<Addr>,
    },
}

/// Mathematical model of [`ExecuteMsg`].
pub ghost enum ExecuteMsgView {
    RegisterCollateral { collateral: Seq<char>, custody_contract: Seq<char> },
    UpdateConfig {
        owner: Option<Seq<char>>,
        overseer: Option<Seq<char>>,
        market: Option<Seq<char>>,
        liquidation: Option<Seq<char>>,
        stable_addr: Option<Seq<char>>,
        a_stable_contract: Option<Seq<char>>,
        a_stable_contract_reward: Option<Seq<char>>,
    },
}

impl DeepView for ExecuteMsg {
    type V = ExecuteMsgView;

    open spec fn deep_view(&self) -> ExecuteMsgView {
        match self {
            ExecuteMsg::RegisterCollateral {
                collateral,
                custody_contract,
            } => ExecuteMsgView::RegisterCollateral {
                collateral: collateral.deep_view(),
                custody_contract: custody_contract.deep_view(),
            },
            ExecuteMsg::UpdateConfig {
                owner,
                overseer,
                market,
                liquidation,
                stable_addr,
                a_stable_contract,
                a_stable_contract_reward,
            } => ExecuteMsgView::UpdateConfig {
                owner: owner.deep_view(),
                overseer: overseer.deep_view(),
                market: market.deep_view(),
                liquidation: liquidation.deep_view(),
                stable_addr: stable_addr.deep_view(),
                a_stable_contract: a_stable_contract.deep_view(),
                a_stable_contract_reward: a_stable_contract_reward.deep_view(),
            },
        }
    }
}

/// The read-only calls.
#[derive(Debug, Clone, PartialEq, Eq)]
pub enum QueryMsg {
    /// Compiles a decoded operation.
    Messages {
        msg: Candidates,
    },
    /// Reads the configuration.
    Config {},
    /// Reads the custody contract of a collateral token.
    CollateralInfo {
        collateral: Addr,
    },
}

/// Mathematical model of [`QueryMsg`].
pub ghost enum QueryMsgView {
    Messages { msg: CandidatesView },
    Config {},
    CollateralInfo { collateral: Seq<char> },
}

impl DeepView for QueryMsg {
    type V = QueryMsgView;

    open spec fn deep_view(&self) -> QueryMsgView {
        match self {
            QueryMsg::Messages { msg } => QueryMsgView::Messages { msg: msg.deep_view() },
            QueryMsg::Config {} => QueryMsgView::Config {},
            QueryMsg::CollateralInfo { collateral } => QueryMsgView::CollateralInfo {
                collateral: collateral.deep_view(),
            },
        }
    }
}

/// The configuration as it is read out.
#[derive(Debug, Clone, PartialEq, Eq)]
pub struct ConfigResponse {
    pub owner: Addr,
    pub overseer: Addr,
    pub market: Addr,
    pub liquidation: Addr,
    pub stable_addr: Addr,
    pub a_stable_contract: Addr,
    pub a_stable_contract_reward: Addr,
}

/// Mathematical model of [`ConfigResponse`].
pub ghost struct ConfigResponseView {
    pub owner: Seq<char>,
    pub overseer: Seq<char>,
    pub market: Seq<char>,
    pub liquidation: Seq<char>,
    pub stable_addr: Seq<char>,
    pub a_stable_contract: Seq<char>,
    pub a_stable_contract_reward: Seq<char>,
}

impl DeepView for ConfigResponse {
    type V = ConfigResponseView;

    open spec fn deep_view(&self) -> ConfigResponseView {
        ConfigResponseView {
            owner: self.owner.deep_view(),
            overseer: self.overseer.deep_view(),
            market: self.market.deep_view(),
            liquidation: self.liquidation.deep_view(),
            stable_addr: self.stable_addr.deep_view(),
            a_stable_contract: self.a_stable_contract.deep_view(),
            a_stable_contract_reward: self.a_stable_contract_reward.deep_view(),
        }
    }
}

/// Nothing: migration changes no state.
#[derive(Debug, Clone, Copy, PartialEq, Eq)]
pub struct MigrateMsg {}

impl DeepView for MigrateMsg {
    type V = MigrateMsg;

    open spec fn deep_view(&self) -> MigrateMsg {
        *self
    }
}

/// The answers to the read-only calls.
#[derive(Debug, Clone, PartialEq, Eq)]
pub enum QueryResponse {
    /// The compiled operation.
    Messages(Step),
    /// The configuration.
    Config(ConfigResponse),
    /// The custody contract of a collateral token.
    CollateralInfo(CollateralInfoResponse),
}

/// Mathematical model of [`QueryResponse`].
pub ghost enum QueryResponseView {
    Messages(StepView),
    Config(ConfigResponseView),
    CollateralInfo(CollateralInfoResponseView),
}

impl DeepView for QueryResponse {
    type V = QueryResponseView;

    open spec fn deep_view(&self) -> QueryResponseView {
        match self {
            QueryResponse::Messages(inner) => QueryResponseView::Messages(inner.deep_view()),
            QueryResponse::Config(inner) => QueryResponseView::Config(inner.deep_view()),
            QueryResponse::CollateralInfo(inner) => QueryResponseView::CollateralInfo(inner.deep_view()),
        }
    }
}

/// A collateral token and its custody contract, as read out.
#[derive(Debug, Clone, PartialEq, Eq)]
pub struct CollateralInfoResponse {
    pub collateral: Addr,
    pub custody_contract: Addr,
}

/// Mathematical model of [`CollateralInfoResponse`].
pub ghost struct CollateralInfoResponseView {
    pub collateral: Seq<char>,
    pub custody_contract: Seq<char>,
}

impl DeepView for CollateralInfoResponse {
    type V = CollateralInfoResponseView;

    open spec fn deep_view(&self) -> CollateralInfoResponseView {
        CollateralInfoResponseView {
            collateral: self.collateral.deep_view(),
            custody_contract: self.custody_contract.deep_view(),
        }
    }
}

/// The operations on the lending market.
#[derive(Debug, Clone, PartialEq, Eq)]
pub enum MarketOperations {
    BorrowStable {
        borrow_amount: Uint256,
        to: Option<String>,
    },
    ClaimBorrowerRewards {
        to: Option<String>,
    },
    ClaimLenderRewards {
        to: Option<String>,
    },
    RedeemStable {
        executor_addr: Addr,
        sender: Addr,
        a_stable_amount: Option<Uint128>,
    },
    DepositStable {
        executor_addr: Addr,
        sender: Addr,
        stable_amount: Option<Uint128>,
    },
    RepayStable {
        amount: Uint128,
        executor_addr: Addr,
        sender: Addr,
    },
    RepayStableFor {
        amount: Uint128,
        borrower: String,
    },
}

/// Mathematical model of [`MarketOperations`].
pub ghost enum MarketOperationsView {
    BorrowStable { borrow_amount: Uint256, to: Option<Seq<char>> },
    ClaimBorrowerRewards { to: Option<Seq<char>> },
    ClaimLenderRewards { to: Option<Seq<char>> },
    RedeemStable { executor_addr: Seq<char>, sender: Seq<char>, a_stable_amount: Option<Uint128> },
    DepositStable { executor_addr: Seq<char>, sender: Seq<char>, stable_amount: Option<Uint128> },
    RepayStable { amount: Uint128, executor_addr: Seq<char>, sender: Seq<char> },
    RepayStableFor { amount: Uint128, borrower: Seq<char> },
}

impl DeepView for MarketOperations {
    type V = MarketOperationsView;

    open spec fn deep_view(&self) -> MarketOperationsView {
        match self {
            MarketOperations::BorrowStable {
                borrow_amount,
                to,
            } => MarketOperationsView::BorrowStable {
                borrow_amount: borrow_amount.deep_view(),
                to: to.deep_view(),
            },
            MarketOperations::ClaimBorrowerRewards {
                to,
            } => MarketOperationsView::ClaimBorrowerRewards {
                to: to.deep_view(),
            },
            MarketOperations::ClaimLenderRewards {
                to,
            } => MarketOperationsView::ClaimLenderRewards {
                to: to.deep_view(),
            },
            MarketOperations::RedeemStable {
                executor_addr,
                sender,
                a_stable_amount,
            } => MarketOperationsView::RedeemStable {
                executor_addr: executor_addr.deep_view(),
                sender: sender.deep_view(),
                a_stable_amount: a_stable_amount.deep_view(),
            },
            MarketOperations::DepositStable {
                executor_addr,
                sender,
                stable_amount,
            } => MarketOperationsView::DepositStable {
                executor_addr: executor_addr.deep_view(),
                sender: sender.deep_view(),
                stable_amount: stable_amount.deep_view(),
            },
            MarketOperations::RepayStable {
                amount,
                executor_addr,
                sender,
            } => MarketOperationsView::RepayStable {
                amount: amount.deep_view(),
                executor_addr: executor_addr.deep_view(),
                sender: sender.deep_view(),
            },
            MarketOperations::RepayStableFor {
                amount,
                borrower,
            } => MarketOperationsView::RepayStableFor {
                amount: amount.deep_view(),
                borrower: borrower.deep_view(),
            },
        }
    }
}

/// The operations on a custody contract.
#[derive(Debug, Clone, PartialEq, Eq)]
pub enum CustodyOperations {
    /// Pays the accrued reward out.
    ClaimRewards {
        collateral: Addr,
        recipient: Option<String>,
    },
}

/// Mathematical model of [`CustodyOperations`].
pub ghost enum CustodyOperationsView {
    ClaimRewards { collateral: Seq<char>, recipient: Option<Seq<char>> },
}

impl DeepView for CustodyOperations {
    type V = CustodyOperationsView;

    open spec fn deep_view(&self) -> CustodyOperationsView {
        match self {
            CustodyOperations::ClaimRewards {
                collateral,
                recipient,
            } => CustodyOperationsView::ClaimRewards {
                collateral: collateral.deep_view(),
                recipient: recipient.deep_view(),
            },
        }
    }
}

/// The operations on the liquidation queue.
#[allow(inconsistent_fields)]
#[derive(Debug, Clone, PartialEq, Eq)]
pub enum LiquidationOperations {
    /// Withdraws a bid.
    RetractBid {
        bid_idx: Uint128,
        amount: Option<Uint256>,
    },
    /// Activates bids whose waiting period is over.
    ActivateBids {
        collateral_token: Addr,
        bids_idx: Option<Vec<Uint128>>,
    },
    /// Claims the collateral that the bids have bought.
    ClaimLiquidations {
        collateral_token: Addr,
        bids_idx: Option<Vec<Uint128>>,
    },
    ClaimLendingRewards {
        collateral_token: Addr,
        bids_idx: Option<Vec<Uint128>>,
    },
    SubmitBid {
        sender: Option<Addr>,
        amount: Option<Uint128>,
        collateral_token: Addr,
        premium_slot: u8,
    },
}

/// Mathematical model of [`LiquidationOperations`].
#[allow(inconsistent_fields)]
pub ghost enum LiquidationOperationsView {
    RetractBid { bid_idx: Uint128, amount: Option<Uint256> },
    ActivateBids { collateral_token: Seq<char>, bids_idx: Option<Seq<Uint128>> },
    ClaimLiquidations { collateral_token: Seq<char>, bids_idx: Option<Seq<Uint128>> },
    ClaimLendingRewards { collateral_token: Seq<char>, bids_idx: Option<Seq<Uint128>> },
    SubmitBid {
        sender: Option<Seq<char>>,
        amount: Option<Uint128>,
        collateral_token: Seq<char>,
        premium_slot: u8,
    },
}

impl DeepView for LiquidationOperations {
    type V = LiquidationOperationsView;

    open spec fn deep_view(&self) -> LiquidationOperationsView {
        match self {
            LiquidationOperations::RetractBid {
                bid_idx,
                amount,
            } => LiquidationOperationsView::RetractBid {
                bid_idx: bid_idx.deep_view(),
                amount: amount.deep_view(),
            },
            LiquidationOperations::ActivateBids {
                collateral_token,
                bids_idx,
            } => LiquidationOperationsView::ActivateBids {
                collateral_token: collateral_token.deep_view(),
                bids_idx: bids_idx.deep_view(),
            },
            LiquidationOperations::ClaimLiquidations {
                collateral_token,
                bids_idx,
            } => LiquidationOperationsView::ClaimLiquidations {
                collateral_token: collateral_token.deep_view(),
                bids_idx: bids_idx.deep_view(),
            },
            LiquidationOperations::ClaimLendingRewards {
                collateral_token,
                bids_idx,
            } => LiquidationOperationsView::ClaimLendingRewards {
                collateral_token: collateral_token.deep_view(),
                bids_idx: bids_idx.deep_view(),
            },
            LiquidationOperations::SubmitBid {
                sender,
                amount,
                collateral_token,
                premium_slot,
            } => LiquidationOperationsView::SubmitBid {
                sender: sender.deep_view(),
                amount: amount.deep_view(),
                collateral_token: collateral_token.deep_view(),
                premium_slot: premium_slot.deep_view(),
            },
        }
    }
}

/// The operations on collateral.
#[allow(inconsistent_fields)]
#[derive(Debug, Clone, PartialEq, Eq)]
pub enum OverseerOperations {
    ProvideAndLockCollateral {
        executor_addr: Addr,
        sender: Addr,
        collateral: Addr,
        amount: Option<Uint128>,
    },
    UnlockAndWithdrawCollateral {
        sender: Option<Addr>,
        collateral: Addr,
        amount: Option<Uint128>,
    },
}

/// Mathematical model of [`OverseerOperations`].
#[allow(inconsistent_fields)]
pub ghost enum OverseerOperationsView {
    ProvideAndLockCollateral {
        executor_addr: Seq<char>,
        sender: Seq<char>,
        collateral: Seq<char>,
        amount: Option<Uint128>,
    },
    UnlockAndWithdrawCollateral {
        sender: Option<Seq<char>>,
        collateral: Seq<char>,
        amount: Option<Uint128>,
    },
}

impl DeepView for OverseerOperations {
    type V = OverseerOperationsView;

    open spec fn deep_view(&self) -> OverseerOperationsView {
        match self {
            OverseerOperations::ProvideAndLockCollateral {
                executor_addr,
                sender,
                collateral,
                amount,
            } => OverseerOperationsView::ProvideAndLockCollateral {
                executor_addr: executor_addr.deep_view(),
                sender: sender.deep_view(),
                collateral: collateral.deep_view(),
                amount: amount.deep_view(),
            },
            OverseerOperations::UnlockAndWithdrawCollateral {
                sender,
                collateral,
                amount,
            } => OverseerOperationsView::UnlockAndWithdrawCollateral {
                sender: sender.deep_view(),
                collateral: collateral.deep_view(),
                amount: amount.deep_view(),
            },
        }
    }
}

/// What each schema of the adapter made of one payload: `None` where it did not parse.
#[derive(Debug, Clone, PartialEq, Eq)]
pub struct Candidates {
    pub market: Option<MarketOperations>,
    pub custody: Option<CustodyOperations>,
    pub liquidation: Option<LiquidationOperations>,
    pub overseer: Option<OverseerOperations>,
}

/// Mathematical model of [`Candidates`].
pub ghost struct CandidatesView {
    pub market: Option<MarketOperationsView>,
    pub custody: Option<CustodyOperationsView>,
    pub liquidation: Option<LiquidationOperationsView>,
    pub overseer: Option<OverseerOperationsView>,
}

impl DeepView for Candidates {
    type V = CandidatesView;

    open spec fn deep_view(&self) -> CandidatesView {
        CandidatesView {
            market: self.market.deep_view(),
            custody: self.custody.deep_view(),
            liquidation: self.liquidation.deep_view(),
            overseer: self.overseer.deep_view(),
        }
    }
}

/// A decoded operation, under the schema that accepted it.
#[derive(Debug, Clone, PartialEq, Eq)]
pub enum Operation {
    Market(MarketOperations),
    Custody(CustodyOperations),
    Liquidation(LiquidationOperations),
    Overseer(OverseerOperations),
}

/// Mathematical model of [`Operation`].
pub ghost enum OperationView {
    Market(MarketOperationsView),
    Custody(CustodyOperationsView),
    Liquidation(LiquidationOperationsView),
    Overseer(OverseerOperationsView),
}

impl DeepView for Operation {
    type V = OperationView;

    open spec fn deep_view(&self) -> OperationView {
        match self {
            Operation::Market(inner) => OperationView::Market(inner.deep_view()),
            Operation::Custody(inner) => OperationView::Custody(inner.deep_view()),
            Operation::Liquidation(inner) => OperationView::Liquidation(inner.deep_view()),
            Operation::Overseer(inner) => OperationView::Overseer(inner.deep_view()),
        }
    }
}

impl MarketOperationsView {
    /// The operation with its open amount filled.
    pub open spec fn fill_amount(self, amount: u128) -> MarketOperationsView {
        match self {
            MarketOperationsView::RedeemStable { executor_addr, sender, a_stable_amount } => {
                MarketOperationsView::RedeemStable {
                    executor_addr,
                    sender,
                    a_stable_amount: filled(a_stable_amount, amount),
                }
            },
            MarketOperationsView::DepositStable { executor_addr, sender, stable_amount } => {
                MarketOperationsView::DepositStable {
                    executor_addr,
                    sender,
                    stable_amount: filled(stable_amount, amount),
                }
            },
            other => other,
        }
    }
}

impl MarketOperations {
    /// The operation with its open amount filled with what the chain reported. An operation
    /// that names its amount, or has none, stays as it is.
    pub fn fill_amount(self, amount: Uint128) -> (r: MarketOperations)
        ensures
            r.deep_view() == self.deep_view().fill_amount(amount),
    {
        match self {
            MarketOperations::RedeemStable { executor_addr, sender, a_stable_amount } => {
                MarketOperations::RedeemStable {
                    executor_addr,
                    sender,
                    a_stable_amount: fill(a_stable_amount, amount),
                }
            },
            MarketOperations::DepositStable { executor_addr, sender, stable_amount } => {
                MarketOperations::DepositStable {
                    executor_addr,
                    sender,
                    stable_amount: fill(stable_amount, amount),
                }
            },
            other => other,
        }
    }
}

impl LiquidationOperationsView {
    /// The operation with its open amount filled.
    pub open spec fn fill_amount(self, amount: u128) -> LiquidationOperationsView {
        match self {
            LiquidationOperationsView::SubmitBid {
                sender,
                amount: open,
                collateral_token,
                premium_slot,
            } => LiquidationOperationsView::SubmitBid {
                sender,
                amount: filled(open, amount),
                collateral_token,
                premium_slot,
            },
            other => other,
        }
    }
}

impl LiquidationOperations {
    /// The operation with its open amount filled with what the chain reported. An operation
    /// that names its amount, or has none, stays as it is.
    pub fn fill_amount(self, amount: Uint128) -> (r: LiquidationOperations)
        ensures
            r.deep_view() == self.deep_view().fill_amount(amount),
    {
        match self {
            LiquidationOperations::SubmitBid {
                sender,
                amount: open,
                collateral_token,
                premium_slot,
            } => LiquidationOperations::SubmitBid {
                sender,
                amount: fill(open, amount),
                collateral_token,
                premium_slot,
            },
            other => other,
        }
    }
}

impl OverseerOperationsView {
    /// The operation with its open amount filled.
    pub open spec fn fill_amount(self, amount: u128) -> OverseerOperationsView {
        match self {
            OverseerOperationsView::ProvideAndLockCollateral {
                executor_addr,
                sender,
                collateral,
                amount: open,
            } => OverseerOperationsView::ProvideAndLockCollateral {
                executor_addr,
                sender,
                collateral,
                amount: filled(open, amount),
            },
            OverseerOperationsView::UnlockAndWithdrawCollateral {
                sender,
                collateral,
                amount: open,
            } => OverseerOperationsView::UnlockAndWithdrawCollateral {
                sender,
                collateral,
                amount: filled(open, amount),
            },
        }
    }
}

impl OverseerOperations {
    /// The operation with its open amount filled with what the chain reported. An operation
    /// that names its amount stays as it is.
    pub fn fill_amount(self, amount: Uint128) -> (r: OverseerOperations)
        ensures
            r.deep_view() == self.deep_view().fill_amount(amount),
    {
        match self {
            OverseerOperations::ProvideAndLockCollateral {
                executor_addr,
                sender,
                collateral,
                amount: open,
            } => OverseerOperations::ProvideAndLockCollateral {
                executor_addr,
                sender,
                collateral,
                amount: fill(open, amount),
            },
            OverseerOperations::UnlockAndWithdrawCollateral { sender, collateral, amount: open } => {
                OverseerOperations::UnlockAndWithdrawCollateral {
                    sender,
                    collateral,
                    amount: fill(open, amount),
                }
            },
        }
    }
}

impl OperationView {
    /// The operation with its open amount filled.
    pub open spec fn fill_amount(self, amount: u128) -> OperationView {
        match self {
            OperationView::Market(op) => OperationView::Market(op.fill_amount(amount)),
            OperationView::Custody(op) => OperationView::Custody(op),
            OperationView::Liquidation(op) => OperationView::Liquidation(op.fill_amount(amount)),
            OperationView::Overseer(op) => OperationView::Overseer(op.fill_amount(amount)),
        }
    }
}

impl Operation {
    /// The operation with its open amount filled with what the chain reported. An operation
    /// that names its amount, or has none, stays as it is.
    pub fn fill_amount(self, amount: Uint128) -> (r: Operation)
        ensures
            r.deep_view() == self.deep_view().fill_amount(amount),
    {
        match self {
            Operation::Market(op) => Operation::Market(op.fill_amount(amount)),
            Operation::Custody(op) => Operation::Custody(op),
            Operation::Liquidation(op) => Operation::Liquidation(op.fill_amount(amount)),
            Operation::Overseer(op) => Operation::Overseer(op.fill_amount(amount)),
        }
    }
}

} // verus!
