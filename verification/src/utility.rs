//! Message shapes of the wrapping contract, and the token balance question.

pub mod querier;
pub mod wrapped;
