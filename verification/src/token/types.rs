//! The records, events and errors of the security token.

use vstd::prelude::*;
use crate::address::Address;
use crate::kyc::ComplianceStatus;

verus! {

/// The most decimals a token may have.
pub const MAX_DECIMALS: u32 = 7;

/// The largest total supply.
pub const MAX_TOTAL_SUPPLY: i128 = 1_000_000_000_000_000_000;

/// The largest price of a token in stablecoin units.
pub const MAX_USDC_PRICE: i128 = 1_000_000_000_000;

/// The longest name, in bytes.
pub const MAX_NAME_LEN: usize = 64;

/// The longest symbol, in bytes.
pub const MAX_SYMBOL_LEN: usize = 12;

/// The longest home domain, in bytes.
pub const MAX_HOME_DOMAIN_LEN: usize = 256;

/// What the token is, fixed at initialisation.
#[derive(Debug, PartialEq, Eq)]
pub struct TokenMetadata {
    /// The name, as the bytes of its text.
    pub name: Vec<u8>,
    /// The symbol, as the bytes of its text.
    pub symbol: Vec<u8>,
    pub decimals: u32,
    pub total_supply: i128,
    pub issuer: Address,
    /// The home domain, as the bytes of its text.
    pub home_domain: Vec<u8>,
    /// Stablecoin units per whole token.
    pub usdc_price: i128,
    pub usdc_token: Address,
}

/// The switches of the token.
#[derive(Clone, Copy, Debug, PartialEq, Eq, Structural)]
pub struct ContractConfig {
    /// Whether both sides of a transfer must be KYC-verified and approved.
    pub authorization_required: bool,
    /// Whether a verification or an approval may be taken back.
    pub authorization_revocable: bool,
    /// Whether only admins may transfer.
    pub transfer_restricted: bool,
}

/// What the token emits.
#[derive(Debug, PartialEq, Eq)]
pub enum SecurityTokenEvent {
    Init(TokenMetadata),
    /// From, to, amount.
    Transfer(Address, Address, i128),
    /// Address, status.
    ComplianceUpdated(Address, ComplianceStatus),
    /// Address, verified.
    KycVerified(Address, bool),
    /// Required, revocable.
    AuthorizationChanged(bool, bool),
    /// From, amount actually taken.
    ClawbackExecuted(Address, i128),
    /// Buyer, beneficiary, tokens, stablecoin paid.
    Purchase(Address, Address, i128, i128),
    /// Issuer, amount.
    UsdcWithdrawn(Address, i128),
    /// Issuer, new admin.
    AdminAdded(Address, Address),
    /// Issuer, removed admin.
    AdminRemoved(Address, Address),
    /// Restricted.
    TransferRestrictionChanged(bool),
}

/// Why a token operation was refused. A refused operation changes nothing.
#[derive(Clone, Copy, Debug, PartialEq, Eq, Structural)]
pub enum TokenError {
    InvalidAmount,
    TransferRestricted,
    NotAdminKyc,
    NotAdminCompliance,
    NotAdminClawback,
    NotAdminAddAdmin,
    DuplicateAdmin,
    NotAdminConfigureAuth,
    NotAdminTransferRestriction,
    KycNotVerified,
    ComplianceNotApproved,
    InsufficientBalance,
    InvalidPurchaseAmount,
    CalculationOverflow,
    InsufficientIssuerTokens,
    InvalidWithdrawAmount,
    InsufficientUsdcBalance,
    UsdcTransferVerificationFailed,
    InsufficientUsdcInContract,
    UsdcWithdrawalVerificationFailed,
    SelfTransferNotAllowed,
    AuthorizationNotRevocable,
    NotIssuer,
    CannotRemoveIssuer,
    NotAnAdmin,
    NotAdminTtl,
    /// The total supply is zero or negative.
    InvalidTotalSupply,
    /// The total supply is above one quintillion.
    TotalSupplyTooLarge,
    /// More than seven decimals.
    InvalidDecimals,
    /// The price is zero or negative.
    InvalidPrice,
    /// The price is above one trillion.
    PriceTooLarge,
    EmptyHomeDomain,
    HomeDomainTooLong,
    EmptyName,
    NameTooLong,
    EmptySymbol,
    SymbolTooLong,
    /// The stablecoin named at initialisation is the token itself.
    UsdcTokenIsContract,
    /// Stored parts do not make a consistent token.
    InconsistentState,
}

/// The contract error code of `e`, or 0 for a refusal at initialisation, which
/// has none.
pub open spec fn error_code(e: TokenError) -> u32 {
    match e {
        TokenError::InvalidAmount => 1,
        TokenError::TransferRestricted => 2,
        TokenError::NotAdminKyc => 3,
        TokenError::NotAdminCompliance => 4,
        TokenError::NotAdminClawback => 5,
        TokenError::NotAdminAddAdmin => 8,
        TokenError::DuplicateAdmin => 9,
        TokenError::NotAdminConfigureAuth => 10,
        TokenError::NotAdminTransferRestriction => 11,
        TokenError::KycNotVerified => 12,
        TokenError::ComplianceNotApproved => 13,
        TokenError::InsufficientBalance => 14,
        TokenError::InvalidPurchaseAmount => 15,
        TokenError::CalculationOverflow => 16,
        TokenError::InsufficientIssuerTokens => 17,
        TokenError::InvalidWithdrawAmount => 19,
        TokenError::InsufficientUsdcBalance => 20,
        TokenError::UsdcTransferVerificationFailed => 21,
        TokenError::InsufficientUsdcInContract => 22,
        TokenError::UsdcWithdrawalVerificationFailed => 23,
        TokenError::SelfTransferNotAllowed => 24,
        TokenError::AuthorizationNotRevocable => 25,
        TokenError::NotIssuer => 26,
        TokenError::CannotRemoveIssuer => 27,
        TokenError::NotAnAdmin => 28,
        TokenError::NotAdminTtl => 29,
        _ => 0,
    }
}

/// The host's error value. Nothing of its inside is used here; it is made by
/// [`contract_error`] and handed on.
#[verifier::external_type_specification]
#[verifier::external_body]
pub struct ExHostError(soroban_sdk::Error);

/// The value `soroban_sdk::Error::from_contract_error` returns for a code.
pub uninterp spec fn host_error(code: u32) -> soroban_sdk::Error;

/// Calls `soroban_sdk::Error::from_contract_error`, which packs the code into
/// an error value of the contract kind. It reads nothing but its argument and
/// cannot fail, so equal codes give equal values; that is all the contract
/// claims.
#[verifier::external_body]
fn contract_error(code: u32) -> (e: soroban_sdk::Error)
    ensures
        e == host_error(code),
{
    soroban_sdk::Error::from_contract_error(code)
}

impl TokenError {
    /// The host's error value under which this refusal is reported to the
    /// caller of the contract: the contract error with this refusal's code.
    pub fn to_contract_error(&self) -> (e: soroban_sdk::Error)
        ensures
            e == host_error(error_code(*self)),
    {
        contract_error(self.code())
    }

    /// The contract error code under which this refusal is reported; 0 for a
    /// refusal at initialisation, which has no code.
    pub fn code(&self) -> (code: u32)
        ensures
            code == error_code(*self),
    {
        match self {
            TokenError::InvalidAmount => 1,
            TokenError::TransferRestricted => 2,
            TokenError::NotAdminKyc => 3,
            TokenError::NotAdminCompliance => 4,
            TokenError::NotAdminClawback => 5,
            TokenError::NotAdminAddAdmin => 8,
            TokenError::DuplicateAdmin => 9,
            TokenError::NotAdminConfigureAuth => 10,
            TokenError::NotAdminTransferRestriction => 11,
            TokenError::KycNotVerified => 12,
            TokenError::ComplianceNotApproved => 13,
            TokenError::InsufficientBalance => 14,
            TokenError::InvalidPurchaseAmount => 15,
            TokenError::CalculationOverflow => 16,
            TokenError::InsufficientIssuerTokens => 17,
            TokenError::InvalidWithdrawAmount => 19,
            TokenError::InsufficientUsdcBalance => 20,
            TokenError::UsdcTransferVerificationFailed => 21,
            TokenError::InsufficientUsdcInContract => 22,
            TokenError::UsdcWithdrawalVerificationFailed => 23,
            TokenError::SelfTransferNotAllowed => 24,
            TokenError::AuthorizationNotRevocable => 25,
            TokenError::NotIssuer => 26,
            TokenError::CannotRemoveIssuer => 27,
            TokenError::NotAnAdmin => 28,
            TokenError::NotAdminTtl => 29,
            _ => 0,
        }
    }
}

} // verus!
