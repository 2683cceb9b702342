//! State query gateway: the questions an operation may put to the chain, and what an answer
//! is worth as an amount.
//!
//! The engine never reads chain state itself. An operation that leaves its amount open is
//! compiled to a question; whoever runs the engine puts it to the chain and resumes the
//! operation with the answer, which [`answer_amount`] turns into the amount that fills it.

use crate::oraidex::asset::{AssetInfo, AssetInfoView};
use crate::oraidex::querier::{bonded_amount, bonded_amount_view};
use crate::oraidex::staking::{RewardInfoResponse, RewardInfoResponseView};
use crate::orchai::custody::{BorrowerResponse, BorrowerResponseView, locked_view};
use crate::types::{
    Addr,
    Coin,
    CoinView,
    CosmosMsg,
    CosmosMsgView,
    StdError,
    StdErrorView,
    StdResult,
    Uint128,
    generic_err_view,
    not_found_view,
    result_amount,
    result_view,
};
use vstd::prelude::*;

verus! {

/// A question about chain state that fills in an open quantity.
#[derive(Debug, Clone, PartialEq, Eq)]
pub enum StateQuery {
    /// The balance of an account at a token contract.
    TokenBalance {
        token: Addr,
        account: Addr,
    },
    /// The balance of an account in a native denomination.
    NativeBalance {
        account: Addr,
        denom: String,
    },
    /// What a staker has bonded in one pool of the liquidity staking contract.
    StakedAmount {
        staking: Addr,
        staker: Addr,
        asset_info: AssetInfo,
    },
    /// The collateral position of a borrower at a custody contract.
    CustodyBorrower {
        custody: Addr,
        borrower: Addr,
    },
    /// What a delegator has bonded to a validator.
    Delegation {
        delegator: Addr,
        validator: String,
    },
}

/// Mathematical model of [`StateQuery`].
pub ghost enum StateQueryView {
    TokenBalance { token: Seq<char>, account: Seq<char> },
    NativeBalance { account: Seq<char>, denom: Seq<char> },
    StakedAmount { staking: Seq<char>, staker: Seq<char>, asset_info: AssetInfoView },
    CustodyBorrower { custody: Seq<char>, borrower: Seq<char> },
    Delegation { delegator: Seq<char>, validator: Seq<char> },
}

impl DeepView for StateQuery {
    type V = StateQueryView;

    open spec fn deep_view(&self) -> StateQueryView {
        match self {
            StateQuery::TokenBalance { token, account } => StateQueryView::TokenBalance {
                token: token.deep_view(),
                account: account.deep_view(),
            },
            StateQuery::NativeBalance { account, denom } => StateQueryView::NativeBalance {
                account: account.deep_view(),
                denom: denom.deep_view(),
            },
            StateQuery::StakedAmount {
                staking,
                staker,
                asset_info,
            } => StateQueryView::StakedAmount {
                staking: staking.deep_view(),
                staker: staker.deep_view(),
                asset_info: asset_info.deep_view(),
            },
            StateQuery::CustodyBorrower { custody, borrower } => StateQueryView::CustodyBorrower {
                custody: custody.deep_view(),
                borrower: borrower.deep_view(),
            },
            StateQuery::Delegation { delegator, validator } => StateQueryView::Delegation {
                delegator: delegator.deep_view(),
                validator: validator.deep_view(),
            },
        }
    }
}

/// The chain's answer to a [`StateQuery`].
#[derive(Debug, Clone, PartialEq, Eq)]
pub enum StateAnswer {
    /// A token or native balance.
    Balance(Uint128),
    /// The reward entries of a staker.
    Staked(RewardInfoResponse),
    /// A collateral position.
    Borrower(BorrowerResponse),
    /// The bonded coin, if there is a delegation.
    Delegation(Option<Coin>),
}

/// Mathematical model of [`StateAnswer`].
pub ghost enum StateAnswerView {
    Balance(Uint128),
    Staked(RewardInfoResponseView),
    Borrower(BorrowerResponseView),
    Delegation(Option<CoinView>),
}

impl DeepView for StateAnswer {
    type V = StateAnswerView;

    open spec fn deep_view(&self) -> StateAnswerView {
        match self {
            StateAnswer::Balance(inner) => StateAnswerView::Balance(inner.deep_view()),
            StateAnswer::Staked(inner) => StateAnswerView::Staked(inner.deep_view()),
            StateAnswer::Borrower(inner) => StateAnswerView::Borrower(inner.deep_view()),
            StateAnswer::Delegation(inner) => StateAnswerView::Delegation(inner.deep_view()),
        }
    }
}

/// How far an operation could be compiled.
#[derive(Debug, Clone, PartialEq, Eq)]
pub enum Step {
    /// A quantity is open: put this question to the chain and compile again with the answer.
    Ask(StateQuery),
    /// The messages, in the order in which they must run.
    Emit(Vec<CosmosMsg>),
}

/// Mathematical model of [`Step`].
pub ghost enum StepView {
    Ask(StateQueryView),
    Emit(Seq<CosmosMsgView>),
}

impl DeepView for Step {
    type V = StepView;

    open spec fn deep_view(&self) -> StepView {
        match self {
            Step::Ask(inner) => StepView::Ask(inner.deep_view()),
            Step::Emit(inner) => StepView::Emit(inner.deep_view()),
        }
    }
}

/// Model of [`answer_amount`].
pub open spec fn answer_amount_view(query: StateQueryView, answer: StateAnswerView) -> Result<
    u128,
    StdErrorView,
> {
    match (query, answer) {
        (StateQueryView::TokenBalance { .. }, StateAnswerView::Balance(balance)) => Ok(balance),
        (StateQueryView::NativeBalance { .. }, StateAnswerView::Balance(balance)) => Ok(balance),
        (StateQueryView::StakedAmount { asset_info, .. }, StateAnswerView::Staked(response)) => {
            match bonded_amount_view(response.reward_infos, asset_info) {
                Some(bonded) => Ok(bonded),
                None => Err(not_found_view("Reward info"@)),
            }
        },
        (StateQueryView::CustodyBorrower { .. }, StateAnswerView::Borrower(response)) => locked_view(
            response.balance,
            response.spendable,
        ),
        (StateQueryView::Delegation { .. }, StateAnswerView::Delegation(Some(coin))) => Ok(
            coin.amount,
        ),
        (StateQueryView::Delegation { .. }, StateAnswerView::Delegation(None)) => Err(
            not_found_view("Delegation"@),
        ),
        _ => Err(generic_err_view("Answer does not fit the question"@)),
    }
}

/// The amount that an answer fills in for the operation that asked `query`:
/// a balance as it is, the bond in the pool asked for, the locked part of a collateral
/// position, the bonded coin of a delegation. Fails where the answer is of another kind than
/// the question, or holds no such amount.
pub fn answer_amount(query: &StateQuery, answer: &StateAnswer) -> (r: StdResult<Uint128>)
    ensures
        result_amount(r) == answer_amount_view(query.deep_view(), answer.deep_view()),
{
    match query {
        StateQuery::TokenBalance { .. } => match answer {
            StateAnswer::Balance(balance) => Ok(*balance),
            _ => Err(StdError::generic_err("Answer does not fit the question")),
        },
        StateQuery::NativeBalance { .. } => match answer {
            StateAnswer::Balance(balance) => Ok(*balance),
            _ => Err(StdError::generic_err("Answer does not fit the question")),
        },
        StateQuery::StakedAmount { asset_info, .. } => match answer {
            StateAnswer::Staked(response) => match bonded_amount(response, asset_info) {
                Some(bonded) => Ok(bonded),
                None => Err(StdError::not_found("Reward info")),
            },
            _ => Err(StdError::generic_err("Answer does not fit the question")),
        },
        StateQuery::CustodyBorrower { .. } => match answer {
            StateAnswer::Borrower(response) => response.locked(),
            _ => Err(StdError::generic_err("Answer does not fit the question")),
        },
        StateQuery::Delegation { .. } => match answer {
            StateAnswer::Delegation(Some(coin)) => Ok(coin.amount),
            StateAnswer::Delegation(None) => Err(StdError::not_found("Delegation")),
            _ => Err(StdError::generic_err("Answer does not fit the question")),
        },
    }
}

impl StateQuery {
    /// Whether two questions ask the same of the chain.
    pub fn same(&self, other: &StateQuery) -> (r: bool)
        ensures
            r == (self.deep_view() == other.deep_view()),
    {
        match self {
            StateQuery::TokenBalance { token, account } => match other {
                StateQuery::TokenBalance { token: other_token, account: other_account } => {
                    *token == *other_token && *account == *other_account
                },
                _ => false,
            },
            StateQuery::NativeBalance { account, denom } => match other {
                StateQuery::NativeBalance { account: other_account, denom: other_denom } => {
                    *account == *other_account && *denom == *other_denom
                },
                _ => false,
            },
            StateQuery::StakedAmount { staking, staker, asset_info } => match other {
                StateQuery::StakedAmount {
                    staking: other_staking,
                    staker: other_staker,
                    asset_info: other_asset_info,
                } => *staking == *other_staking && *staker == *other_staker && asset_info.same(
                    other_asset_info,
                ),
                _ => false,
            },
            StateQuery::CustodyBorrower { custody, borrower } => match other {
                StateQuery::CustodyBorrower { custody: other_custody, borrower: other_borrower } => {
                    *custody == *other_custody && *borrower == *other_borrower
                },
                _ => false,
            },
            StateQuery::Delegation { delegator, validator } => match other {
                StateQuery::Delegation {
                    delegator: other_delegator,
                    validator: other_validator,
                } => *delegator == *other_delegator && *validator == *other_validator,
                _ => false,
            },
        }
    }
}

/// The question that a compiled operation puts to the chain, where it puts one.
pub open spec fn asked_view(step: Result<StepView, StdErrorView>) -> Option<StateQueryView> {
    match step {
        Ok(StepView::Ask(question)) => Some(question),
        _ => None,
    }
}

/// Model of the error for an answer to a question that the operation does not ask.
pub open spec fn unasked_view() -> StdErrorView {
    generic_err_view("The operation does not ask this question"@)
}

/// The error for an answer to a question that the operation does not ask.
pub fn unasked() -> (r: StdError)
    ensures
        r.deep_view() == unasked_view(),
{
    StdError::generic_err("The operation does not ask this question")
}

/// Model of the error for an operation that still asks after its amount was filled.
pub open spec fn still_open_view() -> StdErrorView {
    generic_err_view("The amount is still open"@)
}

/// Model of [`finished`].
pub open spec fn finished_view(step: Result<StepView, StdErrorView>) -> Result<
    Seq<CosmosMsgView>,
    StdErrorView,
> {
    match step {
        Ok(StepView::Emit(messages)) => Ok(messages),
        Ok(StepView::Ask(_)) => Err(still_open_view()),
        Err(e) => Err(e),
    }
}

/// The messages of an operation that was compiled with the chain's answer at hand. A step
/// that still asks is an error: no adapter compiles to one once the amount is filled.
pub fn finished(step: StdResult<Step>) -> (r: StdResult<Vec<CosmosMsg>>)
    ensures
        result_view(r) == finished_view(result_view(step)),
{
    match step {
        Ok(Step::Emit(messages)) => Ok(messages),
        Ok(Step::Ask(_)) => Err(StdError::generic_err("The amount is still open")),
        Err(e) => Err(e),
    }
}

/// A balance that the chain reports is the amount that is filled in, so another balance gives
/// another amount: nothing of an earlier answer is kept.
pub proof fn lemma_amount_follows_balance(query: StateQueryView, balance: u128, later: u128)
    requires
        query is TokenBalance || query is NativeBalance,
    ensures
        answer_amount_view(query, StateAnswerView::Balance(balance)) == Ok::<u128, StdErrorView>(
            balance,
        ),
        balance != later ==> answer_amount_view(query, StateAnswerView::Balance(balance))
            != answer_amount_view(query, StateAnswerView::Balance(later)),
{
}

/// Model of [`emit`].
pub open spec fn emit_view(list: Result<Seq<CosmosMsgView>, StdErrorView>) -> Result<
    StepView,
    StdErrorView,
> {
    match list {
        Ok(messages) => Ok(StepView::Emit(messages)),
        Err(e) => Err(e),
    }
}

/// The step that hands a finished message list out.
pub fn emit(list: StdResult<Vec<CosmosMsg>>) -> (r: StdResult<Step>)
    ensures
        result_view(r) == emit_view(result_view(list)),
{
    match list {
        Ok(messages) => Ok(Step::Emit(messages)),
        Err(e) => Err(e),
    }
}

} // verus!
