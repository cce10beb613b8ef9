//! The records, events and errors of a property.

use vstd::prelude::*;
use crate::address::Address;

verus! {

/// Seconds in one accrual epoch: thirty days.
pub const EPOCH_DURATION: u64 = 2_592_000;

/// Seconds of grace after an epoch in which only the user may act: one day.
pub const GRACE_PERIOD: u64 = 86_400;

/// The highest loyalty tier.
pub const MAX_LOYALTY_TIER: u32 = 4;

/// Seconds in a day.
pub const SECONDS_PER_DAY: u64 = 86_400;

/// Days in an epoch.
pub const EPOCH_DAYS: u32 = 30;

/// The most decimals a property token may have.
pub const MAX_DECIMALS: u32 = 7;

/// The highest annual rate an admin may set, in basis points.
pub const MAX_ANNUAL_RATE_BPS: u32 = 2000;

/// What a property is, fixed at initialisation.
#[derive(Debug)]
pub struct PropertyMetadata {
    /// The name, as the bytes of its text.
    pub name: Vec<u8>,
    /// The symbol, as the bytes of its text.
    pub symbol: Vec<u8>,
    pub decimals: u32,
    pub total_supply: i128,
    /// Stablecoin units per token unit.
    pub token_price: i128,
    pub vault_address: Address,
    pub kyc_address: Address,
    pub stablecoin_address: Address,
}

/// The rates from which yield is computed, in basis points per year.
#[derive(Clone, Copy, Debug, PartialEq, Eq, Structural)]
pub struct RoiConfig {
    pub annual_rate_bps: u32,
    pub compounding_bonus_bps: u32,
    /// Bonus per loyalty tier.
    pub loyalty_bonus_bps: u32,
    pub cash_flow_monthly: i128,
}

/// One investor's open position.
#[derive(Clone, Copy, Debug, PartialEq, Eq, Structural)]
pub struct UserPosition {
    pub tokens: i128,
    pub initial_investment: i128,
    pub current_principal: i128,
    pub compounding_enabled: bool,
    pub epoch_start: u64,
    pub consecutive_rollovers: u32,
    pub total_yield_earned: i128,
    /// `min(consecutive_rollovers, 4)`.
    pub loyalty_tier: u32,
}

/// The yield of the running epoch and how far the epoch has come.
#[derive(Clone, Copy, Debug, PartialEq, Eq, Structural)]
pub struct YieldPreview {
    pub base_yield: i128,
    pub compounding_bonus: i128,
    pub loyalty_bonus: i128,
    pub total_yield: i128,
    pub days_elapsed: u32,
    pub days_remaining: u32,
}

/// What a property emits.
#[derive(Clone, Copy, Debug, PartialEq, Eq, Structural)]
pub enum PropertyEvent {
    /// The property was initialised by this admin.
    Initialized(Address),
    /// Buyer, tokens, cost in stablecoin, compounding chosen. The buyer pays
    /// the cost to the property.
    TokensPurchased(Address, i128, i128, bool),
    /// User, rollovers so far, yield of the epoch, loyalty tier, principal,
    /// whether an admin triggered it.
    PositionRolledOver(Address, u32, i128, u32, i128, bool),
    /// User, principal, yield of the last epoch, total payout, rollovers. The
    /// property asks the vault to pay the total to the user.
    PositionLiquidated(Address, i128, i128, i128, u32),
    /// Admin, annual rate, compounding bonus, loyalty bonus.
    RoiConfigUpdated(Address, u32, u32, u32),
}

/// Why a property operation was refused. A refused operation changes nothing.
#[derive(Clone, Copy, Debug, PartialEq, Eq, Structural)]
pub enum PropertyError {
    /// The property was initialised before.
    AlreadyInitialized,
    /// The total supply is zero or negative.
    InvalidTotalSupply,
    /// More than seven decimals.
    InvalidDecimals,
    /// The token price is zero or negative.
    InvalidTokenPrice,
    /// The property has not been initialised.
    NotInitialized,
    /// The actor is not the stored admin.
    NotAdmin,
    /// The annual rate is zero or above 2000 basis points.
    InvalidAnnualRate,
    /// The buyer has an open position already.
    PositionExists,
    /// The token amount is zero or negative.
    InvalidAmount,
    /// The buyer is not both KYC-verified and approved.
    NotCompliant,
    /// The buyer holds less stablecoin than the purchase costs.
    InsufficientBalance,
    /// The user has no open position.
    NoPosition,
    /// Thirty days have not passed since the epoch began.
    EpochNotComplete,
    /// Thirty days and a day have not passed since the epoch began.
    GracePeriodNotPassed,
    /// A checked computation overflowed.
    Overflow,
    /// Stored parts do not make a consistent property.
    InconsistentState,
}

} // verus!
