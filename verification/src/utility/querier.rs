//! The question that the token operations put to the chain.

use crate::gateway::{StateQuery, StateQueryView};
use crate::types::Addr;
use vstd::prelude::*;

verus! {

/// The question for the balance of `account_addr` at the token `contract_addr`.
pub fn query_token_balance(contract_addr: Addr, account_addr: Addr) -> (r: StateQuery)
    ensures
        r.deep_view() == (StateQueryView::TokenBalance {
            token: contract_addr@,
            account: account_addr@,
        }),
{
    StateQuery::TokenBalance { token: contract_addr, account: account_addr }
}

} // verus!
