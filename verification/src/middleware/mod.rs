//! What stands in front of every route.

pub mod whitelist;

pub use whitelist::WhitelistConfig;
