//! Authorization hop injector: whether funds must first move from their owner to the party
//! that acts.

use crate::composer::{push_msg, token_send, token_send_view, transfer_from, transfer_from_view};
use crate::gateway::{StateQueryView, StepView};
use crate::payload::{ProtocolMsg, ProtocolMsgView};
use crate::types::{Addr, CosmosMsg, CosmosMsgView, Uint128};
use vstd::prelude::*;

verus! {

/// A hop is needed exactly when the party that funds the action is not the party that runs it.
pub open spec fn needs_hop(sender: Seq<char>, executor: Seq<char>) -> bool {
    sender != executor
}

/// Model of the messages that go before the primary action: the hop from `sender` to
/// `executor`, or nothing.
pub open spec fn hop_view(
    token: Seq<char>,
    sender: Seq<char>,
    executor: Seq<char>,
    amount: u128,
) -> Seq<CosmosMsgView> {
    if needs_hop(sender, executor) {
        seq![transfer_from_view(token, sender, executor, amount)]
    } else {
        Seq::empty()
    }
}

/// Model of a message list with its hop: the hop, where one is needed, then the primary
/// actions in their order.
pub open spec fn with_hop_view(
    token: Seq<char>,
    sender: Seq<char>,
    executor: Seq<char>,
    amount: u128,
    primary: Seq<CosmosMsgView>,
) -> Seq<CosmosMsgView> {
    hop_view(token, sender, executor, amount) + primary
}

/// Whether funds of `sender` must be moved to `executor` before the primary action.
pub fn hop_required(sender: &Addr, executor: &Addr) -> (r: bool)
    ensures
        r == needs_hop(sender@, executor@),
{
    *sender != *executor
}

/// The messages that go before the primary action on `amount` of `token`.
pub fn inject_hop(token: &Addr, sender: &Addr, executor: &Addr, amount: Uint128) -> (r: Vec<
    CosmosMsg,
>)
    ensures
        r.deep_view() == hop_view(token@, sender@, executor@, amount),
{
    let mut messages: Vec<CosmosMsg> = Vec::new();
    assert(messages.deep_view() =~= Seq::<CosmosMsgView>::empty());
    if hop_required(sender, executor) {
        push_msg(&mut messages, transfer_from(token.clone(), sender.clone(), executor.clone(), amount));
        assert(messages.deep_view() =~= hop_view(token@, sender@, executor@, amount));
    }
    messages
}

/// Where the sender is not the executor, the list starts with the transfer from the sender to
/// the executor and goes on with the primary actions; where they are the same, the list is the
/// primary actions alone.
pub proof fn lemma_hop_injection(
    token: Seq<char>,
    sender: Seq<char>,
    executor: Seq<char>,
    amount: u128,
    primary: Seq<CosmosMsgView>,
)
    ensures
        sender != executor ==> {
            let list = with_hop_view(token, sender, executor, amount, primary);
            &&& list.len() == primary.len() + 1
            &&& list[0] == transfer_from_view(token, sender, executor, amount)
            &&& list.subrange(1, list.len() as int) == primary
        },
        sender == executor ==> with_hop_view(token, sender, executor, amount, primary) == primary,
{
    let list = with_hop_view(token, sender, executor, amount, primary);
    if sender != executor {
        assert(list.subrange(1, list.len() as int) =~= primary);
    } else {
        assert(list =~= primary);
    }
}

/// Model of [`send_with_hop`]: the hop, where one is needed, and then the send of `amount` of
/// `token` to `contract` with `msg`.
pub open spec fn hop_and_send_view(
    token: Seq<char>,
    sender: Seq<char>,
    executor: Seq<char>,
    amount: u128,
    contract: Seq<char>,
    msg: ProtocolMsgView,
) -> Seq<CosmosMsgView> {
    with_hop_view(
        token,
        sender,
        executor,
        amount,
        seq![token_send_view(token, contract, amount, msg)],
    )
}

/// Model of the common token operation: `sender` funds it, `executor` runs it, and the tokens
/// go to `contract` together with `msg`. With an amount, the messages are the hop, where one
/// is needed, and then the send. Without, the sender's whole balance is meant, and the
/// question for it comes back.
pub open spec fn send_with_hop_view(
    token: Seq<char>,
    sender: Seq<char>,
    executor: Seq<char>,
    amount: Option<u128>,
    contract: Seq<char>,
    msg: ProtocolMsgView,
) -> StepView {
    match amount {
        Some(amount) => StepView::Emit(
            hop_and_send_view(token, sender, executor, amount, contract, msg),
        ),
        None => StepView::Ask(StateQueryView::TokenBalance { token, account: sender }),
    }
}

/// The messages of the common token operation: the hop from `sender` to `executor`, where the
/// two differ, and then the send of `amount` of `token` to `contract` with `msg`.
pub fn send_with_hop(
    token: Addr,
    sender: Addr,
    executor: Addr,
    amount: Uint128,
    contract: Addr,
    msg: ProtocolMsg,
) -> (r: Vec<CosmosMsg>)
    ensures
        r.deep_view() == hop_and_send_view(
            token@,
            sender@,
            executor@,
            amount,
            contract@,
            msg.deep_view(),
        ),
{
    let mut messages = inject_hop(&token, &sender, &executor, amount);
    push_msg(&mut messages, token_send(token, contract, amount, msg));
    assert(messages.deep_view() =~= hop_and_send_view(
        token@,
        sender@,
        executor@,
        amount,
        contract@,
        msg.deep_view(),
    ));
    messages
}

/// The common token operation with its amount named compiles to two messages where the
/// sender is not the executor, the transfer from the sender to the executor first and the
/// send second, and to the send alone where they are the same.
pub proof fn lemma_send_with_hop_shape(
    token: Seq<char>,
    sender: Seq<char>,
    executor: Seq<char>,
    amount: u128,
    contract: Seq<char>,
    msg: ProtocolMsgView,
)
    ensures
        sender != executor ==> send_with_hop_view(
            token,
            sender,
            executor,
            Some(amount),
            contract,
            msg,
        ) == StepView::Emit(
            seq![
                transfer_from_view(token, sender, executor, amount),
                token_send_view(token, contract, amount, msg),
            ],
        ),
        sender == executor ==> send_with_hop_view(
            token,
            sender,
            executor,
            Some(amount),
            contract,
            msg,
        ) == StepView::Emit(seq![token_send_view(token, contract, amount, msg)]),
{
    let primary = seq![token_send_view(token, contract, amount, msg)];
    let list = with_hop_view(token, sender, executor, amount, primary);
    if sender != executor {
        assert(list =~= seq![
            transfer_from_view(token, sender, executor, amount),
            token_send_view(token, contract, amount, msg),
        ]);
    } else {
        assert(list =~= primary);
    }
}

} // verus!
