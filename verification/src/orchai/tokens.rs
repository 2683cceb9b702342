//! Lists of collateral tokens.

use crate::uint256::Uint256;
use vstd::prelude::*;

verus! {

/// Collateral tokens with their amounts.
pub type TokensHuman = Vec<(String, Uint256)>;

} // verus!
