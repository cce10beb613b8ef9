//! The shared liquidity vault: admission control, the FIFO liquidation queue
//! and per-property statistics.

pub mod types;
pub mod model;
pub mod laws;
pub mod contract;
