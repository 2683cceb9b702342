//! Message shapes of the strategy registry.

pub mod strategy;
