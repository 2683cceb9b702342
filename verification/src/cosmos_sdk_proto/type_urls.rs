//! The names under which the remote chain knows its message types.

use vstd::prelude::*;

verus! {

/// A transfer between accounts of the bank.
pub const MSG_SEND: &'static str = "/cosmos.bank.v1beta1.MsgSend";

/// The registration of an interchain account.
pub const MSG_REGISTER_ACCOUNT: &'static str = "/intertx.MsgRegisterAccount";

/// A message run from an interchain account.
pub const MSG_SUBMIT_TX: &'static str = "/intertx.MsgSubmitTx";

/// A transfer over the token bridge.
pub const MSG_TRANSFER: &'static str = "/ibc.applications.transfer.v1.MsgTransfer";

/// A delegation to a validator.
pub const MSG_DELEGATE: &'static str = "/cosmos.staking.v1beta1.MsgDelegate";

/// The withdrawal of a delegation.
pub const MSG_UNDELEGATE: &'static str = "/cosmos.staking.v1beta1.MsgUndelegate";

/// The choice of the address that rewards are paid to.
pub const MSG_SET_WITHDRAW_ADDRESS: &'static str =
    "/cosmos.distribution.v1beta1.MsgSetWithdrawAddress";

/// The move of a delegation to another validator.
pub const MSG_BEGIN_REDELEGATE: &'static str = "/cosmos.staking.v1beta1.MsgBeginRedelegate";

/// The withdrawal of a delegator's reward.
pub const MSG_WITHDRAW_DELEGATOR_REWARD: &'static str =
    "/cosmos.distribution.v1beta1.MsgWithdrawDelegatorReward";

} // verus!
