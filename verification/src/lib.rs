//! Collateralized, cash-settled put option escrow: payoff functions, the
//! expiration gate, deposit accounting and settlement.

pub mod contract;
pub mod economics;
pub mod error;
pub mod host;
pub mod identity;
pub mod laws;
pub mod oracle;
pub mod payoff;
pub mod snapshot;
pub mod timelock;
