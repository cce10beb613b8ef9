//! The security-token ledger: balances with compliance-gated transfer,
//! clawback, and purchase against stablecoin.

pub mod types;
pub mod model;
pub mod contract;
