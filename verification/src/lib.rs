//! Verified core of a tokenised real-estate investment product: a compliance
//! oracle, a security-token ledger, a shared liquidity vault with admission
//! control and a FIFO liquidation queue, and a per-property epoch / yield /
//! rollover engine.
//!
//! Every contract is an explicit state object. An operation either succeeds,
//! returning the events it emitted, or fails with an error and leaves the state
//! exactly as it was. What moves stablecoin is named by the events; the caller
//! moves it and hands the balances it read to the operations that check them.

pub mod address;
pub mod address_map;
pub mod arith;
pub mod kyc;
pub mod property;
pub mod token;
pub mod vault;

pub use crate::address::{Address, AddressKind, AuthenticatedActor};
pub use crate::address_map::{AddressMap, Entry};
pub use crate::kyc::{ComplianceStatus, KycContract, KycError, KycEvent};
pub use crate::property::contract::PropertyContract;
pub use crate::property::types::{
    PropertyError, PropertyEvent, PropertyMetadata, RoiConfig, UserPosition, YieldPreview,
};
pub use crate::token::contract::SecurityTokenContract;
pub use crate::token::types::{ContractConfig, SecurityTokenEvent, TokenError, TokenMetadata};
pub use crate::vault::contract::VaultContract;
pub use crate::vault::types::{
    LiquidationRequest, PropertyVaultStats, QueueStatus, VaultConfig, VaultError, VaultEvent,
};
