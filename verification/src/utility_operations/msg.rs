//! The calls of the adapter and the operations that it compiles.

use crate::gateway::{Step, StepView};
use crate::resolver::{fill, filled};
use crate::types::{Addr, Binary, Uint128};
use vstd::prelude::*;

verus! {

/// The first configuration.
#[derive(Debug, Clone, PartialEq, Eq)]
pub struct InstantiateMsg {
    pub owner: Addr,
    pub wrapped_contract: Addr,
}

/// Mathematical model of [`InstantiateMsg`].
pub ghost struct InstantiateMsgView {
    pub owner: Seq<char>,
    pub wrapped_contract: Seq<char>,
}

impl DeepView for InstantiateMsg {
    type V = InstantiateMsgView;

    open spec fn deep_view(&self) -> InstantiateMsgView {
        InstantiateMsgView {
            owner: self.owner.deep_view(),
            wrapped_contract: self.wrapped_contract.deep_view(),
        }
    }
}

/// The state-changing calls.
#[derive(Debug, Clone, PartialEq, Eq)]
pub enum ExecuteMsg {
    /// Overrides the fields that are given. Only the owner may.
    UpdateConfig {
        owner: Option<Addr>,
        wrapped_contract: Option<Addr>,
    },
}

/// Mathematical model of [`ExecuteMsg`].
pub ghost enum ExecuteMsgView {
    UpdateConfig { owner: Option<Seq<char>>, wrapped_contract: Option<Seq<char>> },
}

impl DeepView for ExecuteMsg {
    type V = ExecuteMsgView;

    open spec fn deep_view(&self) -> ExecuteMsgView {
        match self {
            ExecuteMsg::UpdateConfig { owner, wrapped_contract } => ExecuteMsgView::UpdateConfig {
                owner: owner.deep_view(),
                wrapped_contract: wrapped_contract.deep_view(),
            },
        }
    }
}

/// The read-only calls.
#[derive(Debug, Clone, PartialEq, Eq)]
pub enum QueryMsg {
    /// Compiles a decoded operation.
    Messages {
        msg: Candidates,
    },
    /// Reads the configuration.
    Config {},
}

/// Mathematical model of [`QueryMsg`].
pub ghost enum QueryMsgView {
    Messages { msg: CandidatesView },
    Config {},
}

impl DeepView for QueryMsg {
    type V = QueryMsgView;

    open spec fn deep_view(&self) -> QueryMsgView {
        match self {
            QueryMsg::Messages { msg } => QueryMsgView::Messages { msg: msg.deep_view() },
            QueryMsg::Config {} => QueryMsgView::Config {},
        }
    }
}

/// The configuration as it is read out.
#[derive(Debug, Clone, PartialEq, Eq)]
pub struct ConfigResponse {
    pub owner: Addr,
}

/// Mathematical model of [`ConfigResponse`].
pub ghost struct ConfigResponseView {
    pub owner: Seq<char>,
}

impl DeepView for ConfigResponse {
    type V = ConfigResponseView;

    open spec fn deep_view(&self) -> ConfigResponseView {
        ConfigResponseView {
            owner: self.owner.deep_view(),
        }
    }
}

/// Nothing: migration changes no state.
#[derive(Debug, Clone, Copy, PartialEq, Eq)]
pub struct MigrateMsg {}

impl DeepView for MigrateMsg {
    type V = MigrateMsg;

    open spec fn deep_view(&self) -> MigrateMsg {
        *self
    }
}

/// The answers to the read-only calls.
#[derive(Debug, Clone, PartialEq, Eq)]
pub enum QueryResponse {
    /// The compiled operation.
    Messages(Step),
    /// The configuration.
    Config(ConfigResponse),
}

/// Mathematical model of [`QueryResponse`].
pub ghost enum QueryResponseView {
    Messages(StepView),
    Config(ConfigResponseView),
}

impl DeepView for QueryResponse {
    type V = QueryResponseView;

    open spec fn deep_view(&self) -> QueryResponseView {
        match self {
            QueryResponse::Messages(inner) => QueryResponseView::Messages(inner.deep_view()),
            QueryResponse::Config(inner) => QueryResponseView::Config(inner.deep_view()),
        }
    }
}

/// The plain token moves.
#[derive(Debug, Clone, PartialEq, Eq)]
pub enum TokenOperations {
    TokenTransfer {
        token: Addr,
        sender: Option<Addr>,
        recipient: Addr,
        amount: Option<Uint128>,
    },
    TokenTransferFrom {
        token: Addr,
        owner: Addr,
        recipient: Addr,
        amount: Option<Uint128>,
    },
    TokenSend {
        token: Addr,
        sender: Option<Addr>,
        contract: Addr,
        amount: Option<Uint128>,
        msg: Binary,
    },
    TokenSendFrom {
        token: Addr,
        owner: Addr,
        contract: Addr,
        amount: Option<Uint128>,
        msg: Binary,
    },
}

/// Mathematical model of [`TokenOperations`].
pub ghost enum TokenOperationsView {
    TokenTransfer {
        token: Seq<char>,
        sender: Option<Seq<char>>,
        recipient: Seq<char>,
        amount: Option<Uint128>,
    },
    TokenTransferFrom {
        token: Seq<char>,
        owner: Seq<char>,
        recipient: Seq<char>,
        amount: Option<Uint128>,
    },
    TokenSend {
        token: Seq<char>,
        sender: Option<Seq<char>>,
        contract: Seq<char>,
        amount: Option<Uint128>,
        msg: Seq<u8>,
    },
    TokenSendFrom {
        token: Seq<char>,
        owner: Seq<char>,
        contract: Seq<char>,
        amount: Option<Uint128>,
        msg: Seq<u8>,
    },
}

impl DeepView for TokenOperations {
    type V = TokenOperationsView;

    open spec fn deep_view(&self) -> TokenOperationsView {
        match self {
            TokenOperations::TokenTransfer {
                token,
                sender,
                recipient,
                amount,
            } => TokenOperationsView::TokenTransfer {
                token: token.deep_view(),
                sender: sender.deep_view(),
                recipient: recipient.deep_view(),
                amount: amount.deep_view(),
            },
            TokenOperations::TokenTransferFrom {
                token,
                owner,
                recipient,
                amount,
            } => TokenOperationsView::TokenTransferFrom {
                token: token.deep_view(),
                owner: owner.deep_view(),
                recipient: recipient.deep_view(),
                amount: amount.deep_view(),
            },
            TokenOperations::TokenSend {
                token,
                sender,
                contract,
                amount,
                msg,
            } => TokenOperationsView::TokenSend {
                token: token.deep_view(),
                sender: sender.deep_view(),
                contract: contract.deep_view(),
                amount: amount.deep_view(),
                msg: msg.deep_view(),
            },
            TokenOperations::TokenSendFrom {
                token,
                owner,
                contract,
                amount,
                msg,
            } => TokenOperationsView::TokenSendFrom {
                token: token.deep_view(),
                owner: owner.deep_view(),
                contract: contract.deep_view(),
                amount: amount.deep_view(),
                msg: msg.deep_view(),
            },
        }
    }
}

/// The conversions between a native denomination and its token.
#[derive(Debug, Clone, PartialEq, Eq)]
pub enum WrappedOperations {
    ConvertToDenom {
        from_token: Addr,
        target_denom: String,
        executor_addr: Addr,
        sender: Addr,
        amount: Option<Uint128>,
    },
    ConvertToCw20 {
        from_denom: String,
        executor_addr: Addr,
        amount: Option<Uint128>,
    },
}

/// Mathematical model of [`WrappedOperations`].
pub ghost enum WrappedOperationsView {
    ConvertToDenom {
        from_token: Seq<char>,
        target_denom: Seq<char>,
        executor_addr: Seq<char>,
        sender: Seq<char>,
        amount: Option<Uint128>,
    },
    ConvertToCw20 { from_denom: Seq<char>, executor_addr: Seq<char>, amount: Option<Uint128> },
}

impl DeepView for WrappedOperations {
    type V = WrappedOperationsView;

    open spec fn deep_view(&self) -> WrappedOperationsView {
        match self {
            WrappedOperations::ConvertToDenom {
                from_token,
                target_denom,
                executor_addr,
                sender,
                amount,
            } => WrappedOperationsView::ConvertToDenom {
                from_token: from_token.deep_view(),
                target_denom: target_denom.deep_view(),
                executor_addr: executor_addr.deep_view(),
                sender: sender.deep_view(),
                amount: amount.deep_view(),
            },
            WrappedOperations::ConvertToCw20 {
                from_denom,
                executor_addr,
                amount,
            } => WrappedOperationsView::ConvertToCw20 {
                from_denom: from_denom.deep_view(),
                executor_addr: executor_addr.deep_view(),
                amount: amount.deep_view(),
            },
        }
    }
}

/// The native staking operations.
#[derive(Debug, Clone, PartialEq, Eq)]
pub enum ChainOperations {
    ChainDelegate {
        executor_addr: Addr,
        validator: String,
        denom: String,
        amount: Option<Uint128>,
    },
    ChainUndelegate {
        executor_addr: Addr,
        validator: String,
        denom: String,
        amount: Option<Uint128>,
    },
}

/// Mathematical model of [`ChainOperations`].
pub ghost enum ChainOperationsView {
    ChainDelegate {
        executor_addr: Seq<char>,
        validator: Seq<char>,
        denom: Seq<char>,
        amount: Option<Uint128>,
    },
    ChainUndelegate {
        executor_addr: Seq<char>,
        validator: Seq<char>,
        denom: Seq<char>,
        amount: Option<Uint128>,
    },
}

impl DeepView for ChainOperations {
    type V = ChainOperationsView;

    open spec fn deep_view(&self) -> ChainOperationsView {
        match self {
            ChainOperations::ChainDelegate {
                executor_addr,
                validator,
                denom,
                amount,
            } => ChainOperationsView::ChainDelegate {
                executor_addr: executor_addr.deep_view(),
                validator: validator.deep_view(),
                denom: denom.deep_view(),
                amount: amount.deep_view(),
            },
            ChainOperations::ChainUndelegate {
                executor_addr,
                validator,
                denom,
                amount,
            } => ChainOperationsView::ChainUndelegate {
                executor_addr: executor_addr.deep_view(),
                validator: validator.deep_view(),
                denom: denom.deep_view(),
                amount: amount.deep_view(),
            },
        }
    }
}

/// What each schema of the adapter made of one payload: `None` where it did not parse.
#[derive(Debug, Clone, PartialEq, Eq)]
pub struct Candidates {
    pub token: Option<TokenOperations>,
    pub wrapped: Option<WrappedOperations>,
    pub chain: Option<ChainOperations>,
}

/// Mathematical model of [`Candidates`].
pub ghost struct CandidatesView {
    pub token: Option<TokenOperationsView>,
    pub wrapped: Option<WrappedOperationsView>,
    pub chain: Option<ChainOperationsView>,
}

impl DeepView for Candidates {
    type V = CandidatesView;

    open spec fn deep_view(&self) -> CandidatesView {
        CandidatesView {
            token: self.token.deep_view(),
            wrapped: self.wrapped.deep_view(),
            chain: self.chain.deep_view(),
        }
    }
}

/// A decoded operation, under the schema that accepted it.
#[derive(Debug, Clone, PartialEq, Eq)]
pub enum Operation {
    Token(TokenOperations),
    Wrapped(WrappedOperations),
    Chain(ChainOperations),
}

/// Mathematical model of [`Operation`].
pub ghost enum OperationView {
    Token(TokenOperationsView),
    Wrapped(WrappedOperationsView),
    Chain(ChainOperationsView),
}

impl DeepView for Operation {
    type V = OperationView;

    open spec fn deep_view(&self) -> OperationView {
        match self {
            Operation::Token(inner) => OperationView::Token(inner.deep_view()),
            Operation::Wrapped(inner) => OperationView::Wrapped(inner.deep_view()),
            Operation::Chain(inner) => OperationView::Chain(inner.deep_view()),
        }
    }
}

impl TokenOperationsView {
    /// The operation with its open amount filled.
    pub open spec fn fill_amount(self, amount: u128) -> TokenOperationsView {
        match self {
            TokenOperationsView::TokenTransfer { token, sender, recipient, amount: open } => {
                TokenOperationsView::TokenTransfer {
                    token,
                    sender,
                    recipient,
                    amount: filled(open, amount),
                }
            },
            TokenOperationsView::TokenTransferFrom { token, owner, recipient, amount: open } => {
                TokenOperationsView::TokenTransferFrom {
                    token,
                    owner,
                    recipient,
                    amount: filled(open, amount),
                }
            },
            TokenOperationsView::TokenSend { token, sender, contract, amount: open, msg } => {
                TokenOperationsView::TokenSend {
                    token,
                    sender,
                    contract,
                    amount: filled(open, amount),
                    msg,
                }
            },
            TokenOperationsView::TokenSendFrom { token, owner, contract, amount: open, msg } => {
                TokenOperationsView::TokenSendFrom {
                    token,
                    owner,
                    contract,
                    amount: filled(open, amount),
                    msg,
                }
            },
        }
    }
}

impl TokenOperations {
    /// The operation with its open amount filled with what the chain reported. An operation
    /// that names its amount stays as it is.
    pub fn fill_amount(self, amount: Uint128) -> (r: TokenOperations)
        ensures
            r.deep_view() == self.deep_view().fill_amount(amount),
    {
        match self {
            TokenOperations::TokenTransfer { token, sender, recipient, amount: open } => {
                TokenOperations::TokenTransfer {
                    token,
                    sender,
                    recipient,
                    amount: fill(open, amount),
                }
            },
            TokenOperations::TokenTransferFrom { token, owner, recipient, amount: open } => {
                TokenOperations::TokenTransferFrom {
                    token,
                    owner,
                    recipient,
                    amount: fill(open, amount),
                }
            },
            TokenOperations::TokenSend { token, sender, contract, amount: open, msg } => {
                TokenOperations::TokenSend {
                    token,
                    sender,
                    contract,
                    amount: fill(open, amount),
                    msg,
                }
            },
            TokenOperations::TokenSendFrom { token, owner, contract, amount: open, msg } => {
                TokenOperations::TokenSendFrom {
                    token,
                    owner,
                    contract,
                    amount: fill(open, amount),
                    msg,
                }
            },
        }
    }
}

impl WrappedOperationsView {
    /// The operation with its open amount filled.
    pub open spec fn fill_amount(self, amount: u128) -> WrappedOperationsView {
        match self {
            WrappedOperationsView::ConvertToDenom {
                from_token,
                target_denom,
                executor_addr,
                sender,
                amount: open,
            } => WrappedOperationsView::ConvertToDenom {
                from_token,
                target_denom,
                executor_addr,
                sender,
                amount: filled(open, amount),
            },
            WrappedOperationsView::ConvertToCw20 { from_denom, executor_addr, amount: open } => {
                WrappedOperationsView::ConvertToCw20 {
                    from_denom,
                    executor_addr,
                    amount: filled(open, amount),
                }
            },
        }
    }
}

impl WrappedOperations {
    /// The operation with its open amount filled with what the chain reported. An operation
    /// that names its amount stays as it is.
    pub fn fill_amount(self, amount: Uint128) -> (r: WrappedOperations)
        ensures
            r.deep_view() == self.deep_view().fill_amount(amount),
    {
        match self {
            WrappedOperations::ConvertToDenom {
                from_token,
                target_denom,
                executor_addr,
                sender,
                amount: open,
            } => WrappedOperations::ConvertToDenom {
                from_token,
                target_denom,
                executor_addr,
                sender,
                amount: fill(open, amount),
            },
            WrappedOperations::ConvertToCw20 { from_denom, executor_addr, amount: open } => {
                WrappedOperations::ConvertToCw20 {
                    from_denom,
                    executor_addr,
                    amount: fill(open, amount),
                }
            },
        }
    }
}

impl ChainOperationsView {
    /// The operation with its open amount filled.
    pub open spec fn fill_amount(self, amount: u128) -> ChainOperationsView {
        match self {
            ChainOperationsView::ChainDelegate { executor_addr, validator, denom, amount: open } => {
                ChainOperationsView::ChainDelegate {
                    executor_addr,
                    validator,
                    denom,
                    amount: filled(open, amount),
                }
            },
            ChainOperationsView::ChainUndelegate {
                executor_addr,
                validator,
                denom,
                amount: open,
            } => ChainOperationsView::ChainUndelegate {
                executor_addr,
                validator,
                denom,
                amount: filled(open, amount),
            },
        }
    }
}

impl ChainOperations {
    /// The operation with its open amount filled with what the chain reported. An operation
    /// that names its amount stays as it is.
    pub fn fill_amount(self, amount: Uint128) -> (r: ChainOperations)
        ensures
            r.deep_view() == self.deep_view().fill_amount(amount),
    {
        match self {
            ChainOperations::ChainDelegate { executor_addr, validator, denom, amount: open } => {
                ChainOperations::ChainDelegate {
                    executor_addr,
                    validator,
                    denom,
                    amount: fill(open, amount),
                }
            },
            ChainOperations::ChainUndelegate { executor_addr, validator, denom, amount: open } => {
                ChainOperations::ChainUndelegate {
                    executor_addr,
                    validator,
                    denom,
                    amount: fill(open, amount),
                }
            },
        }
    }
}

impl OperationView {
    /// The operation with its open amount filled.
    pub open spec fn fill_amount(self, amount: u128) -> OperationView {
        match self {
            OperationView::Token(op) => OperationView::Token(op.fill_amount(amount)),
            OperationView::Wrapped(op) => OperationView::Wrapped(op.fill_amount(amount)),
            OperationView::Chain(op) => OperationView::Chain(op.fill_amount(amount)),
        }
    }
}

impl Operation {
    /// The operation with its open amount filled with what the chain reported. An operation
    /// that names its amount stays as it is.
    pub fn fill_amount(self, amount: Uint128) -> (r: Operation)
        ensures
            r.deep_view() == self.deep_view().fill_amount(amount),
    {
        match self {
            Operation::Token(op) => Operation::Token(op.fill_amount(amount)),
            Operation::Wrapped(op) => Operation::Wrapped(op.fill_amount(amount)),
            Operation::Chain(op) => Operation::Chain(op.fill_amount(amount)),
        }
    }
}

} // verus!
