//! The questions that the money market operations put to the chain.

use crate::gateway::{StateQuery, StateQueryView};
use crate::orchai::custody::{CustodyQueryMsg, CustodyQueryMsgView};
use crate::types::Addr;
use vstd::prelude::*;

verus! {

/// The question for the balance of `account_addr` at the token `contract_addr`.
pub fn query_token_balance(contract_addr: Addr, account_addr: Addr) -> (r: StateQuery)
    ensures
        r.deep_view() == (StateQueryView::TokenBalance {
            token: contract_addr@,
            account: account_addr@,
        }),
{
    StateQuery::TokenBalance { token: contract_addr, account: account_addr }
}

/// The question for the collateral position of `account_addr` at `custody_contract`.
pub fn query_custody_borrower(custody_contract: Addr, account_addr: Addr) -> (r: StateQuery)
    ensures
        r.deep_view() == (StateQueryView::CustodyBorrower {
            custody: custody_contract@,
            borrower: account_addr@,
        }),
{
    StateQuery::CustodyBorrower { custody: custody_contract, borrower: account_addr }
}

/// The message that asks a custody contract for the position of `account_addr`.
pub fn borrower_query_msg(account_addr: Addr) -> (r: CustodyQueryMsg)
    ensures
        r.deep_view() == (CustodyQueryMsgView::Borrower { address: account_addr@ }),
{
    CustodyQueryMsg::Borrower { address: account_addr }
}

} // verus!
