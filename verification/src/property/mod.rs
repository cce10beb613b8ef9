//! A property: investor positions, the epoch and grace-period gates, yield with
//! compounding and loyalty bonuses, rollover and liquidation.

pub mod types;
pub mod model;
pub mod laws;
pub mod contract;
