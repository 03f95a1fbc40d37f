//! Balance coordination across a fixed set of yield vaults: deposit splitting,
//! withdraw splitting and rebalancing plans, computed as pure functions of the
//! configuration, the reported vault balances and the command.

pub mod contract;
pub mod error;
pub mod msg;
pub mod plan;
pub mod state;
