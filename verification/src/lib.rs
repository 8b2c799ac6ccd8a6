//! A token-factory library: a creator registers a fungible-token
//! specification (supply, metadata, a set of percentage-based vesting
//! allocations) and then drives its deployment as two downstream programs
//! through a four-step asynchronous saga. Each step dispatches one external
//! call and confirms it in a callback; a flag is set at most once, never on a
//! failed call, and the allocation bookkeeping stays consistent throughout.

pub mod account;
pub mod admins;
pub mod callbacks;
pub mod constants;
pub mod laws;
pub mod registry;
pub mod saga;
pub mod types;
pub mod views;
