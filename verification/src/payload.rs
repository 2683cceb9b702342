//! What a contract call carries: the typed calls of the downstream contracts.

use crate::cw20::{Cw20ExecuteMsg, Cw20ExecuteMsgView};
use crate::oraidex::pair::{PairExecuteMsg, PairExecuteMsgView};
use crate::oraidex::router::{OraiswapExecuteMsg, OraiswapExecuteMsgView};
use crate::oraidex::staking::{StakingExecuteMsg, StakingExecuteMsgView};
use crate::orchai::custody::{CustodyExecuteMsg, CustodyExecuteMsgView};
use crate::orchai::liquidation::{LiquidationExecuteMsg, LiquidationExecuteMsgView};
use crate::orchai::market::{
    AStableRewardExecuteMsg,
    AStableRewardExecuteMsgView,
    MarketExecuteMsg,
    MarketExecuteMsgView,
};
use crate::orchai::orai_staking::{OraiStakingExecuteMsg, OraiStakingExecuteMsgView};
use crate::orchai::overseer::{OverseerExecuteMsg, OverseerExecuteMsgView};
use crate::strategy::strategy::{StrategyExecuteMsg, StrategyExecuteMsgView};
use crate::types::Binary;
use crate::utility::wrapped::{WrappedExecuteMsg, WrappedExecuteMsgView};
use vstd::prelude::*;

verus! {

/// A call of one of the downstream protocol contracts.
#[derive(Debug, Clone, PartialEq, Eq)]
pub enum ProtocolMsg {
    Pair(PairExecuteMsg),
    Router(OraiswapExecuteMsg),
    Staking(StakingExecuteMsg),
    Market(MarketExecuteMsg),
    AStableReward(AStableRewardExecuteMsg),
    Custody(CustodyExecuteMsg),
    Liquidation(LiquidationExecuteMsg),
    Overseer(OverseerExecuteMsg),
    OraiStaking(OraiStakingExecuteMsg),
    Strategy(StrategyExecuteMsg),
    Wrapped(WrappedExecuteMsg),
    /// A payload that the caller handed over already encoded.
    Raw(Binary),
}

/// Mathematical model of [`ProtocolMsg`].
pub ghost enum ProtocolMsgView {
    Pair(PairExecuteMsgView),
    Router(OraiswapExecuteMsgView),
    Staking(StakingExecuteMsgView),
    Market(MarketExecuteMsgView),
    AStableReward(AStableRewardExecuteMsgView),
    Custody(CustodyExecuteMsgView),
    Liquidation(LiquidationExecuteMsgView),
    Overseer(OverseerExecuteMsgView),
    OraiStaking(OraiStakingExecuteMsgView),
    Strategy(StrategyExecuteMsgView),
    Wrapped(WrappedExecuteMsgView),
    Raw(Seq<u8>),
}

impl DeepView for ProtocolMsg {
    type V = ProtocolMsgView;

    open spec fn deep_view(&self) -> ProtocolMsgView {
        match self {
            ProtocolMsg::Pair(inner) => ProtocolMsgView::Pair(inner.deep_view()),
            ProtocolMsg::Router(inner) => ProtocolMsgView::Router(inner.deep_view()),
            ProtocolMsg::Staking(inner) => ProtocolMsgView::Staking(inner.deep_view()),
            ProtocolMsg::Market(inner) => ProtocolMsgView::Market(inner.deep_view()),
            ProtocolMsg::AStableReward(inner) => ProtocolMsgView::AStableReward(inner.deep_view()),
            ProtocolMsg::Custody(inner) => ProtocolMsgView::Custody(inner.deep_view()),
            ProtocolMsg::Liquidation(inner) => ProtocolMsgView::Liquidation(inner.deep_view()),
            ProtocolMsg::Overseer(inner) => ProtocolMsgView::Overseer(inner.deep_view()),
            ProtocolMsg::OraiStaking(inner) => ProtocolMsgView::OraiStaking(inner.deep_view()),
            ProtocolMsg::Strategy(inner) => ProtocolMsgView::Strategy(inner.deep_view()),
            ProtocolMsg::Wrapped(inner) => ProtocolMsgView::Wrapped(inner.deep_view()),
            ProtocolMsg::Raw(inner) => ProtocolMsgView::Raw(inner.deep_view()),
        }
    }
}

/// What a contract call carries.
#[derive(Debug, Clone, PartialEq, Eq)]
pub enum ExecutePayload {
    /// A call of a token contract.
    Cw20(Cw20ExecuteMsg),
    /// A call of a protocol contract.
    Protocol(ProtocolMsg),
}

/// Mathematical model of [`ExecutePayload`].
pub ghost enum ExecutePayloadView {
    Cw20(Cw20ExecuteMsgView),
    Protocol(ProtocolMsgView),
}

impl DeepView for ExecutePayload {
    type V = ExecutePayloadView;

    open spec fn deep_view(&self) -> ExecutePayloadView {
        match self {
            ExecutePayload::Cw20(inner) => ExecutePayloadView::Cw20(inner.deep_view()),
            ExecutePayload::Protocol(inner) => ExecutePayloadView::Protocol(inner.deep_view()),
        }
    }
}

} // verus!
