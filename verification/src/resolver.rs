//! Amount resolver: whether an operation says how much, and whose state says it otherwise.

use crate::types::{Addr, StdError, StdErrorView, StdResult, Uint128, generic_err_view};
use vstd::prelude::*;

verus! {

/// How much an operation moves.
#[derive(Debug, Clone, PartialEq, Eq)]
pub enum Quantity {
    /// The amount that the operation names.
    Given(Uint128),
    /// All that the chain reports for this party.
    AllOf(Addr),
}

/// Mathematical model of [`Quantity`].
pub ghost enum QuantityView {
    Given(u128),
    AllOf(Seq<char>),
}

impl DeepView for Quantity {
    type V = QuantityView;

    open spec fn deep_view(&self) -> QuantityView {
        match self {
            Quantity::Given(amount) => QuantityView::Given(*amount),
            Quantity::AllOf(party) => QuantityView::AllOf(party.deep_view()),
        }
    }
}

/// Model of the error for an operation that names neither an amount nor a party whose state
/// could stand for it.
pub open spec fn underspecified_view() -> StdErrorView {
    generic_err_view("Sender and amount is none!!!"@)
}

/// Model of [`quantity`].
pub open spec fn quantity_view(sender: Option<Seq<char>>, amount: Option<u128>) -> Result<
    QuantityView,
    StdErrorView,
> {
    match (amount, sender) {
        (Some(amount), _) => Ok(QuantityView::Given(amount)),
        (None, Some(sender)) => Ok(QuantityView::AllOf(sender)),
        (None, None) => Err(underspecified_view()),
    }
}

/// The error for an operation that names neither an amount nor a sender.
pub fn underspecified() -> (r: StdError)
    ensures
        r.deep_view() == underspecified_view(),
{
    StdError::generic_err("Sender and amount is none!!!")
}

/// How much an operation moves: the amount it names; else all that `sender` holds; and where
/// it names neither, nothing can be compiled.
pub fn quantity(sender: Option<Addr>, amount: Option<Uint128>) -> (r: StdResult<Quantity>)
    ensures
        crate::types::result_view(r) == quantity_view(sender.deep_view(), amount),
{
    match amount {
        Some(amount) => Ok(Quantity::Given(amount)),
        None => match sender {
            Some(sender) => Ok(Quantity::AllOf(sender)),
            None => Err(underspecified()),
        },
    }
}

/// Model of [`asked_party`].
pub open spec fn asked_party_view(sender: Option<Seq<char>>, amount: Option<u128>) -> Option<
    Seq<char>,
> {
    match quantity_view(sender, amount) {
        Ok(QuantityView::AllOf(party)) => Some(party),
        _ => None,
    }
}

/// The party whose state fills the amount of an operation: the sender, where the operation
/// names one and leaves its amount open.
pub fn asked_party(sender: &Option<Addr>, amount: &Option<Uint128>) -> (r: Option<Addr>)
    ensures
        r.deep_view() == asked_party_view(sender.deep_view(), *amount),
{
    match amount {
        Some(_) => None,
        None => match sender {
            Some(sender) => Some(sender.clone()),
            None => None,
        },
    }
}

/// An operation with neither sender nor amount is refused before any question is asked and
/// before any message is built: its quantity is an error, whatever else it holds.
pub proof fn lemma_underspecified_rejected()
    ensures
        quantity_view(None, None) == Err::<QuantityView, StdErrorView>(underspecified_view()),
        forall|sender: Option<Seq<char>>, amount: Option<u128>|
            (#[trigger] quantity_view(sender, amount)) is Err <==> (sender is None && amount is None),
{
}

/// Model of [`fill`]: an amount that is open becomes `amount`, one that is named stays.
pub open spec fn filled(open: Option<u128>, amount: u128) -> Option<u128> {
    match open {
        Some(named) => Some(named),
        None => Some(amount),
    }
}

/// Fills an open amount with what the chain reported.
pub fn fill(open: Option<Uint128>, amount: Uint128) -> (r: Option<Uint128>)
    ensures
        r == filled(open, amount),
{
    match open {
        Some(named) => Some(named),
        None => Some(amount),
    }
}

} // verus!
