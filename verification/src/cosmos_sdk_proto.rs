//! Wire messages of the remote chain and of the interchain-account bridge.

pub mod encoding;
pub mod messages;
pub mod type_urls;
