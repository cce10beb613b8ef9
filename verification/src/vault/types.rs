//! The records, events and errors of the vault.

use vstd::prelude::*;
use crate::address::Address;

verus! {

/// Seconds in thirty days, the length of a month for fulfilment estimates.
pub const SECONDS_PER_MONTH: i128 = 2_592_000;

/// Seconds in ninety days, the estimate used when no cash flow is expected.
pub const NO_CASH_FLOW_DELAY: u64 = 7_776_000;

/// The longest fulfilment estimate, in months.
pub const MAX_ESTIMATE_MONTHS: i128 = 12;

/// The smallest buffer percentage an admin may set.
pub const MIN_BUFFER_PERCENTAGE: u32 = 10;

/// The largest buffer percentage an admin may set.
pub const MAX_BUFFER_PERCENTAGE: u32 = 25;

/// The buffer percentage of a freshly initialised vault.
pub const DEFAULT_BUFFER_PERCENTAGE: u32 = 15;

/// The vault's configuration record.
#[derive(Clone, Copy, Debug, PartialEq, Eq, Structural)]
pub struct VaultConfig {
    pub admin: Address,
    pub stablecoin_address: Address,
    /// Cumulative net deposits.
    pub total_capacity: i128,
    /// Liquidity not yet committed.
    pub available: i128,
    /// Whole percent of `total_capacity` held back as the solvency buffer.
    pub buffer_percentage: u32,
    /// Set while any request waits in the queue.
    pub controlled_mode: bool,
    pub emergency_pause: bool,
}

/// A liquidation that could not be paid at once and waits in the queue.
#[derive(Clone, Copy, Debug, PartialEq, Eq, Structural)]
pub struct LiquidationRequest {
    pub request_id: u64,
    pub property: Address,
    pub user: Address,
    pub amount: i128,
    pub timestamp: u64,
    pub estimated_fulfill_date: u64,
}

/// A summary of the queue.
#[derive(Clone, Copy, Debug, PartialEq, Eq, Structural)]
pub struct QueueStatus {
    pub total_queued: u32,
    pub total_amount: i128,
    pub controlled_mode: bool,
    pub head_index: u64,
    pub tail_index: u64,
    pub estimated_clear_time: u64,
}

/// What the vault records about one authorised property.
#[derive(Clone, Copy, Debug, PartialEq, Eq, Structural)]
pub struct PropertyVaultStats {
    pub property_contract: Address,
    pub total_liquidated: i128,
    pub last_liquidation: u64,
    pub active_users: u32,
    pub cash_flow_monthly: i128,
}

/// What the vault emits.
#[derive(Clone, Copy, Debug, PartialEq, Eq, Structural)]
pub enum VaultEvent {
    /// The vault was initialised by this admin.
    Initialized(Address),
    /// Admin, amount deposited, total capacity after the deposit.
    Funded(Address, i128, i128),
    /// Admin, property.
    PropertyAuthorized(Address, Address),
    /// Property, user, amount: the vault pays `amount` to `user`.
    LiquidationExecuted(Address, Address, i128),
    /// Request id, property, user, amount.
    LiquidationQueued(u64, Address, Address, i128),
    /// Time at which controlled mode began.
    ControlledModeActivated(u64),
    /// Time at which controlled mode ended.
    ControlledModeDeactivated(u64),
    /// Admin, amount withdrawn, liquidity that remains available.
    LiquidityWithdrawn(Address, i128, i128),
    /// Admin, time.
    EmergencyPaused(Address, u64),
    /// Admin, time.
    EmergencyUnpaused(Address, u64),
    /// New buffer percentage.
    BufferAdjusted(u32),
}

/// Why a vault operation was refused. A refused operation changes nothing.
#[derive(Clone, Copy, Debug, PartialEq, Eq, Structural)]
pub enum VaultError {
    /// The vault was initialised before.
    AlreadyInitialized,
    /// The stablecoin named at initialisation is the vault itself.
    StablecoinIsVault,
    /// The vault has not been initialised.
    NotInitialized,
    /// The actor is not the stored admin.
    NotAdmin,
    /// An amount is zero or negative.
    InvalidAmount,
    /// The vault is paused.
    EmergencyPaused,
    /// The admin holds less stablecoin than the deposit.
    InsufficientAdminBalance,
    /// The vault's balance after a deposit is not its balance before plus the
    /// deposit.
    TransferVerificationFailed,
    /// The property is on the authorised list already.
    AlreadyAuthorized,
    /// A withdrawal would leave less than the buffer plus the queued
    /// obligations.
    BufferViolation,
    /// A withdrawal cannot be subtracted from the available liquidity.
    InsufficientFunds,
    /// The vault holds less stablecoin than it is asked to pay out.
    InsufficientVaultBalance,
    /// The vault's balance after a withdrawal is not its balance before minus
    /// the withdrawal.
    WithdrawalVerificationFailed,
    /// The vault is paused already.
    AlreadyPaused,
    /// The vault is not paused.
    NotPaused,
    /// The buffer percentage is outside 10..=25.
    InvalidBufferPercentage,
    /// The property is not on the authorised list.
    PropertyNotAuthorized,
    /// A checked 128-bit or 32-bit computation overflowed.
    Overflow,
    /// The queue has no request id left.
    QueueOverflow,
    /// Stored parts do not make a consistent vault.
    InconsistentState,
}

} // verus!
