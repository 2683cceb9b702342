//! Operation adapters for a smart wallet: each adapter turns one decoded intent into the ordered
//! list of protocol messages that realises it, asking for chain state only where the intent
//! leaves a quantity open.
//!
//! An adapter works in steps, none of which reads the chain. `decode` takes what each of the
//! adapter's schemas made of a payload and picks the operation, the earliest schema first.
//! `compile` turns the operation into its messages, or, where its amount is open, into the
//! question whose answer fills it. `resume` takes the chain's answer and compiles the operation
//! with the amount that the answer is worth. Whoever runs an adapter parses the payload, puts
//! the question to the chain, and submits the messages as one transaction.

pub mod composer;
pub mod cosmos_sdk_proto;
pub mod cw20;
pub mod decoder;
pub mod gateway;
pub mod hop;
pub mod oraidex;
pub mod oraidex_operations;
pub mod orchai;
pub mod orchai_liquid_staking;
pub mod orchai_money_market;
pub mod payload;
pub mod resolver;
pub mod strategy;
pub mod strategy_operations;
pub mod theta_operations;
pub mod types;
pub mod uint256;
pub mod utility;
pub mod utility_operations;
