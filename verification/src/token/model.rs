//! The security token as a mathematical state machine.

use vstd::prelude::*;
use crate::address::Address;
use crate::arith::{fits_i128, mul_div};
use crate::kyc::ComplianceStatus;
use crate::token::types::{ContractConfig, SecurityTokenEvent, TokenError, TokenMetadata};

verus! {

/// Ten to the power `decimals`, for at most seven decimals.
pub open spec fn pow10(decimals: u32) -> i128
    recommends
        decimals <= 7,
{
    if decimals == 0 {
        1
    } else if decimals == 1 {
        10
    } else if decimals == 2 {
        100
    } else if decimals == 3 {
        1_000
    } else if decimals == 4 {
        10_000
    } else if decimals == 5 {
        100_000
    } else if decimals == 6 {
        1_000_000
    } else {
        10_000_000
    }
}

/// `list` without every occurrence of `address`, the order kept.
pub open spec fn without(list: Seq<Address>, address: Address) -> Seq<Address>
    decreases list.len(),
{
    if list.len() == 0 {
        list
    } else if list.last() == address {
        without(list.drop_last(), address)
    } else {
        without(list.drop_last(), address).push(list.last())
    }
}

/// Whether two metadata records say the same: the same bytes of name, symbol
/// and home domain, and every other field equal.
pub open spec fn same_metadata(a: TokenMetadata, b: TokenMetadata) -> bool {
    &&& a.name@ == b.name@
    &&& a.symbol@ == b.symbol@
    &&& a.home_domain@ == b.home_domain@
    &&& a.decimals == b.decimals
    &&& a.total_supply == b.total_supply
    &&& a.issuer == b.issuer
    &&& a.usdc_price == b.usdc_price
    &&& a.usdc_token == b.usdc_token
}

/// Why metadata is refused at initialisation; `None` if it is valid.
pub open spec fn metadata_refusal(m: TokenMetadata, contract_address: Address) -> Option<TokenError> {
    if m.total_supply <= 0 {
        Some(TokenError::InvalidTotalSupply)
    } else if m.total_supply > 1_000_000_000_000_000_000 {
        Some(TokenError::TotalSupplyTooLarge)
    } else if m.decimals > 7 {
        Some(TokenError::InvalidDecimals)
    } else if m.usdc_price <= 0 {
        Some(TokenError::InvalidPrice)
    } else if m.usdc_price > 1_000_000_000_000 {
        Some(TokenError::PriceTooLarge)
    } else if m.home_domain@.len() == 0 {
        Some(TokenError::EmptyHomeDomain)
    } else if m.home_domain@.len() > 256 {
        Some(TokenError::HomeDomainTooLong)
    } else if m.name@.len() == 0 {
        Some(TokenError::EmptyName)
    } else if m.name@.len() > 64 {
        Some(TokenError::NameTooLong)
    } else if m.symbol@.len() == 0 {
        Some(TokenError::EmptySymbol)
    } else if m.symbol@.len() > 12 {
        Some(TokenError::SymbolTooLong)
    } else if m.usdc_token == contract_address {
        Some(TokenError::UsdcTokenIsContract)
    } else {
        None
    }
}

/// Whether no balance is negative.
pub open spec fn balances_wf(balances: Map<Address, i128>) -> bool {
    forall|a: Address| #[trigger] balances.contains_key(a) ==> balances[a] >= 0
}

/// The whole state of the token.
#[verifier::ext_equal]
pub struct TokenState {
    /// The token's own identity.
    pub contract_address: Address,
    pub metadata: TokenMetadata,
    pub config: ContractConfig,
    /// The admins, in the order in which they were added.
    pub admins: Seq<Address>,
    /// The stablecoin taken in by purchases and not yet withdrawn.
    pub usdc_balance: i128,
    pub balances: Map<Address, i128>,
    pub kyc_verified: Map<Address, bool>,
    pub compliance: Map<Address, ComplianceStatus>,
}

/// A successful operation: the state it leaves and the event it emitted.
#[verifier::ext_equal]
pub struct TokenStep {
    pub state: TokenState,
    pub event: SecurityTokenEvent,
}

impl TokenState {
    /// What holds of every state the operations can reach.
    pub open spec fn wf(self) -> bool {
        &&& metadata_refusal(self.metadata, self.contract_address) is None
        &&& self.usdc_balance >= 0
        &&& balances_wf(self.balances)
    }

    /// The tokens `a` holds; an account without an entry holds none.
    pub open spec fn balance_of(self, a: Address) -> i128 {
        if self.balances.contains_key(a) {
            self.balances[a]
        } else {
            0
        }
    }

    /// Whether `a` is KYC-verified; an account without a flag is not.
    pub open spec fn is_kyc_verified(self, a: Address) -> bool {
        self.kyc_verified.contains_key(a) && self.kyc_verified[a]
    }

    /// The compliance status of `a`; an account without one is `Pending`.
    pub open spec fn compliance_status(self, a: Address) -> ComplianceStatus {
        if self.compliance.contains_key(a) {
            self.compliance[a]
        } else {
            ComplianceStatus::Pending
        }
    }

    /// Whether `a` is an admin.
    pub open spec fn is_admin(self, a: Address) -> bool {
        self.admins.contains(a)
    }

    /// Whether `a` is the issuer.
    pub open spec fn is_issuer(self, a: Address) -> bool {
        self.metadata.issuer == a
    }

    /// Why tokens may not pass between `from` and `to`; `None` if they may.
    /// While authorisation is required, both must be KYC-verified and both
    /// approved.
    pub open spec fn compliance_refusal(self, from: Address, to: Address) -> Option<TokenError> {
        if !self.config.authorization_required {
            None
        } else if !self.is_kyc_verified(from) || !self.is_kyc_verified(to) {
            Some(TokenError::KycNotVerified)
        } else if self.compliance_status(from) != ComplianceStatus::Approved
            || self.compliance_status(to) != ComplianceStatus::Approved {
            Some(TokenError::ComplianceNotApproved)
        } else {
            None
        }
    }

    /// The state right after initialisation with `metadata` by `admin`.
    pub open spec fn initial(contract_address: Address, metadata: TokenMetadata, admin: Address) -> TokenState {
        TokenState {
            contract_address,
            metadata,
            config: ContractConfig {
                authorization_required: true,
                authorization_revocable: true,
                transfer_restricted: true,
            },
            admins: seq![admin, metadata.issuer],
            usdc_balance: 0,
            balances: Map::empty().insert(metadata.issuer, metadata.total_supply),
            kyc_verified: Map::empty().insert(metadata.issuer, true),
            compliance: Map::empty().insert(metadata.issuer, ComplianceStatus::Approved),
        }
    }

    /// The same state with other balances.
    pub open spec fn with_balances(self, balances: Map<Address, i128>) -> TokenState {
        TokenState {
            contract_address: self.contract_address,
            metadata: self.metadata,
            config: self.config,
            admins: self.admins,
            usdc_balance: self.usdc_balance,
            balances,
            kyc_verified: self.kyc_verified,
            compliance: self.compliance,
        }
    }

    /// The same state with other switches.
    pub open spec fn with_config(self, config: ContractConfig) -> TokenState {
        TokenState {
            contract_address: self.contract_address,
            metadata: self.metadata,
            config,
            admins: self.admins,
            usdc_balance: self.usdc_balance,
            balances: self.balances,
            kyc_verified: self.kyc_verified,
            compliance: self.compliance,
        }
    }

    /// The same state with other admins.
    pub open spec fn with_admins(self, admins: Seq<Address>) -> TokenState {
        TokenState {
            contract_address: self.contract_address,
            metadata: self.metadata,
            config: self.config,
            admins,
            usdc_balance: self.usdc_balance,
            balances: self.balances,
            kyc_verified: self.kyc_verified,
            compliance: self.compliance,
        }
    }

    /// The same state with another stablecoin balance.
    pub open spec fn with_usdc_balance(self, usdc_balance: i128) -> TokenState {
        TokenState {
            contract_address: self.contract_address,
            metadata: self.metadata,
            config: self.config,
            admins: self.admins,
            usdc_balance,
            balances: self.balances,
            kyc_verified: self.kyc_verified,
            compliance: self.compliance,
        }
    }

    /// A transfer of `amount` tokens from `from` to `to`.
    pub open spec fn transfer(self, from: Address, to: Address, amount: i128) -> Result<
        TokenStep,
        TokenError,
    > {
        if amount <= 0 {
            Err(TokenError::InvalidAmount)
        } else if self.config.transfer_restricted && !self.is_admin(from) {
            Err(TokenError::TransferRestricted)
        } else if self.compliance_refusal(from, to) is Some {
            Err(self.compliance_refusal(from, to)->0)
        } else if from == to {
            Err(TokenError::SelfTransferNotAllowed)
        } else if self.balance_of(from) < amount {
            Err(TokenError::InsufficientBalance)
        } else if !fits_i128(self.balance_of(to) + amount) {
            Err(TokenError::InsufficientBalance)
        } else {
            Ok(
                TokenStep {
                    state: self.with_balances(
                        self.balances.insert(from, (self.balance_of(from) - amount) as i128).insert(
                            to,
                            (self.balance_of(to) + amount) as i128,
                        ),
                    ),
                    event: SecurityTokenEvent::Transfer(from, to, amount),
                },
            )
        }
    }

    /// An admin sets the verification flag of `address`. While authorisation
    /// is not revocable, a verification cannot be taken back.
    pub open spec fn set_kyc_status(self, caller: Address, address: Address, verified: bool) -> Result<
        TokenStep,
        TokenError,
    > {
        if !self.is_admin(caller) {
            Err(TokenError::NotAdminKyc)
        } else if !self.config.authorization_revocable && !verified && self.is_kyc_verified(
            address,
        ) {
            Err(TokenError::AuthorizationNotRevocable)
        } else {
            Ok(
                TokenStep {
                    state: TokenState {
                        contract_address: self.contract_address,
                        metadata: self.metadata,
                        config: self.config,
                        admins: self.admins,
                        usdc_balance: self.usdc_balance,
                        balances: self.balances,
                        kyc_verified: self.kyc_verified.insert(address, verified),
                        compliance: self.compliance,
                    },
                    event: SecurityTokenEvent::KycVerified(address, verified),
                },
            )
        }
    }

    /// An admin sets the compliance status of `address`. While authorisation
    /// is not revocable, an approval cannot be taken back.
    pub open spec fn set_compliance_status(
        self,
        caller: Address,
        address: Address,
        status: ComplianceStatus,
    ) -> Result<TokenStep, TokenError> {
        if !self.is_admin(caller) {
            Err(TokenError::NotAdminCompliance)
        } else if !self.config.authorization_revocable && status != ComplianceStatus::Approved
            && self.compliance_status(address) == ComplianceStatus::Approved {
            Err(TokenError::AuthorizationNotRevocable)
        } else {
            Ok(
                TokenStep {
                    state: TokenState {
                        contract_address: self.contract_address,
                        metadata: self.metadata,
                        config: self.config,
                        admins: self.admins,
                        usdc_balance: self.usdc_balance,
                        balances: self.balances,
                        kyc_verified: self.kyc_verified,
                        compliance: self.compliance.insert(address, status),
                    },
                    event: SecurityTokenEvent::ComplianceUpdated(address, status),
                },
            )
        }
    }

    /// The tokens a clawback of `amount` from `from` takes: the amount, or all
    /// that `from` holds if that is less.
    pub open spec fn clawed_back(self, from: Address, amount: i128) -> i128 {
        if self.balance_of(from) < amount {
            self.balance_of(from)
        } else {
            amount
        }
    }

    /// An admin takes up to `amount` tokens from `from` and gives them to the
    /// issuer. The issuer's new balance is written last: a clawback from the
    /// issuer itself leaves the issuer with what it had plus what was taken.
    pub open spec fn clawback(self, caller: Address, from: Address, amount: i128) -> Result<
        TokenStep,
        TokenError,
    > {
        if !self.is_admin(caller) {
            Err(TokenError::NotAdminClawback)
        } else if amount <= 0 {
            Err(TokenError::InvalidAmount)
        } else {
            let taken = self.clawed_back(from, amount);
            let issuer = self.metadata.issuer;
            if !fits_i128(self.balance_of(from) - taken) || !fits_i128(
                self.balance_of(issuer) + taken,
            ) {
                Err(TokenError::InsufficientBalance)
            } else {
                Ok(
                    TokenStep {
                        state: self.with_balances(
                            self.balances.insert(
                                from,
                                (self.balance_of(from) - taken) as i128,
                            ).insert(issuer, (self.balance_of(issuer) + taken) as i128),
                        ),
                        event: SecurityTokenEvent::ClawbackExecuted(from, taken),
                    },
                )
            }
        }
    }

    /// The issuer makes `new_admin` an admin.
    pub open spec fn add_admin(self, caller: Address, new_admin: Address) -> Result<
        TokenStep,
        TokenError,
    > {
        if !self.is_issuer(caller) {
            Err(TokenError::NotAdminAddAdmin)
        } else if self.is_admin(new_admin) {
            Err(TokenError::DuplicateAdmin)
        } else {
            Ok(
                TokenStep {
                    state: self.with_admins(self.admins.push(new_admin)),
                    event: SecurityTokenEvent::AdminAdded(caller, new_admin),
                },
            )
        }
    }

    /// The issuer takes the admin role from `removed`, which may not be the
    /// issuer itself.
    pub open spec fn remove_admin(self, caller: Address, removed: Address) -> Result<
        TokenStep,
        TokenError,
    > {
        if !self.is_issuer(caller) {
            Err(TokenError::NotIssuer)
        } else if self.is_issuer(removed) {
            Err(TokenError::CannotRemoveIssuer)
        } else if !self.is_admin(removed) {
            Err(TokenError::NotAnAdmin)
        } else {
            Ok(
                TokenStep {
                    state: self.with_admins(without(self.admins, removed)),
                    event: SecurityTokenEvent::AdminRemoved(caller, removed),
                },
            )
        }
    }

    /// An admin sets whether authorisation is required and revocable.
    pub open spec fn configure_authorization(self, caller: Address, required: bool, revocable: bool) -> Result<
        TokenStep,
        TokenError,
    > {
        if !self.is_admin(caller) {
            Err(TokenError::NotAdminConfigureAuth)
        } else {
            Ok(
                TokenStep {
                    state: self.with_config(
                        ContractConfig {
                            authorization_required: required,
                            authorization_revocable: revocable,
                            transfer_restricted: self.config.transfer_restricted,
                        },
                    ),
                    event: SecurityTokenEvent::AuthorizationChanged(required, revocable),
                },
            )
        }
    }

    /// An admin sets whether only admins may transfer.
    pub open spec fn set_transfer_restriction(self, caller: Address, restricted: bool) -> Result<
        TokenStep,
        TokenError,
    > {
        if !self.is_admin(caller) {
            Err(TokenError::NotAdminTransferRestriction)
        } else {
            Ok(
                TokenStep {
                    state: self.with_config(
                        ContractConfig {
                            authorization_required: self.config.authorization_required,
                            authorization_revocable: self.config.authorization_revocable,
                            transfer_restricted: restricted,
                        },
                    ),
                    event: SecurityTokenEvent::TransferRestrictionChanged(restricted),
                },
            )
        }
    }

    /// What `token_amount` tokens cost in stablecoin:
    /// `token_amount * usdc_price / 10^decimals`, truncated. An amount that is
    /// not positive, a buyer or beneficiary that is not compliant, a product
    /// that overflows, a cost that is not positive and a buyer who holds less
    /// than the cost are refused.
    pub open spec fn purchase_cost(
        self,
        buyer: Address,
        beneficiary: Address,
        token_amount: i128,
        buyer_usdc: i128,
    ) -> Result<i128, TokenError> {
        let issuer = self.metadata.issuer;
        if token_amount <= 0 {
            Err(TokenError::InvalidPurchaseAmount)
        } else if self.compliance_refusal(issuer, buyer) is Some {
            Err(self.compliance_refusal(issuer, buyer)->0)
        } else if self.compliance_refusal(issuer, beneficiary) is Some {
            Err(self.compliance_refusal(issuer, beneficiary)->0)
        } else {
            match mul_div(token_amount, self.metadata.usdc_price, pow10(self.metadata.decimals)) {
                None => Err(TokenError::CalculationOverflow),
                Some(cost) => if cost <= 0 {
                    Err(TokenError::CalculationOverflow)
                } else if buyer_usdc < cost {
                    Err(TokenError::InsufficientUsdcBalance)
                } else {
                    Ok(cost)
                },
            }
        }
    }

    /// A purchase of `token_amount` tokens by `buyer` for `beneficiary`, given
    /// the stablecoin balances of the buyer and of the token contract before
    /// and after the payment. The tokens pass from the issuer to the
    /// beneficiary; the beneficiary's balance is written last.
    pub open spec fn purchase(
        self,
        buyer: Address,
        beneficiary: Address,
        token_amount: i128,
        buyer_usdc_before: i128,
        contract_usdc_before: i128,
        buyer_usdc_after: i128,
        contract_usdc_after: i128,
    ) -> Result<TokenStep, TokenError> {
        match self.purchase_cost(buyer, beneficiary, token_amount, buyer_usdc_before) {
            Err(e) => Err(e),
            Ok(cost) => {
                let issuer = self.metadata.issuer;
                if !fits_i128(buyer_usdc_before - cost) || buyer_usdc_after != buyer_usdc_before
                    - cost {
                    Err(TokenError::UsdcTransferVerificationFailed)
                } else if !fits_i128(contract_usdc_before + cost) || contract_usdc_after
                    != contract_usdc_before + cost {
                    Err(TokenError::UsdcTransferVerificationFailed)
                } else if self.balance_of(issuer) < token_amount {
                    Err(TokenError::InsufficientIssuerTokens)
                } else if !fits_i128(self.balance_of(issuer) - token_amount) || !fits_i128(
                    self.balance_of(beneficiary) + token_amount,
                ) || !fits_i128(self.usdc_balance + cost) {
                    Err(TokenError::InsufficientBalance)
                } else {
                    Ok(
                        TokenStep {
                            state: self.with_balances(
                                self.balances.insert(
                                    issuer,
                                    (self.balance_of(issuer) - token_amount) as i128,
                                ).insert(
                                    beneficiary,
                                    (self.balance_of(beneficiary) + token_amount) as i128,
                                ),
                            ).with_usdc_balance((self.usdc_balance + cost) as i128),
                            event: SecurityTokenEvent::Purchase(
                                buyer,
                                beneficiary,
                                token_amount,
                                cost,
                            ),
                        },
                    )
                }
            },
        }
    }

    /// Why a withdrawal of `amount` stablecoin by `caller` is refused before
    /// any stablecoin moves; `None` if it may go ahead.
    pub open spec fn withdrawal_refusal(self, caller: Address, amount: i128, contract_usdc: i128) -> Option<
        TokenError,
    > {
        if !self.is_issuer(caller) {
            Some(TokenError::NotIssuer)
        } else if amount <= 0 || amount > self.usdc_balance {
            Some(TokenError::InvalidWithdrawAmount)
        } else if contract_usdc < amount {
            Some(TokenError::InsufficientUsdcInContract)
        } else {
            None
        }
    }

    /// The issuer withdraws `amount` of the stablecoin taken in, given the
    /// stablecoin balances of the token contract and of the issuer before and
    /// after the payment.
    pub open spec fn withdraw_usdc(
        self,
        caller: Address,
        amount: i128,
        contract_usdc_before: i128,
        caller_usdc_before: i128,
        contract_usdc_after: i128,
        caller_usdc_after: i128,
    ) -> Result<TokenStep, TokenError> {
        match self.withdrawal_refusal(caller, amount, contract_usdc_before) {
            Some(e) => Err(e),
            None => if !fits_i128(contract_usdc_before - amount) || contract_usdc_after
                != contract_usdc_before - amount {
                Err(TokenError::UsdcWithdrawalVerificationFailed)
            } else if !fits_i128(caller_usdc_before + amount) || caller_usdc_after
                != caller_usdc_before + amount {
                Err(TokenError::UsdcWithdrawalVerificationFailed)
            } else if !fits_i128(self.usdc_balance - amount) {
                Err(TokenError::InsufficientBalance)
            } else {
                Ok(
                    TokenStep {
                        state: self.with_usdc_balance((self.usdc_balance - amount) as i128),
                        event: SecurityTokenEvent::UsdcWithdrawn(caller, amount),
                    },
                )
            },
        }
    }
}

/// Every operation keeps the token well formed.
pub proof fn lemma_operations_keep_wf(
    s: TokenState,
    caller: Address,
    other: Address,
    amount: i128,
    flag: bool,
    second_flag: bool,
    status: ComplianceStatus,
    b1: i128,
    b2: i128,
    b3: i128,
    b4: i128,
)
    requires
        s.wf(),
    ensures
        s.transfer(caller, other, amount) matches Ok(step) ==> step.state.wf(),
        s.set_kyc_status(caller, other, flag) matches Ok(step) ==> step.state.wf(),
        s.set_compliance_status(caller, other, status) matches Ok(step) ==> step.state.wf(),
        s.clawback(caller, other, amount) matches Ok(step) ==> step.state.wf(),
        s.add_admin(caller, other) matches Ok(step) ==> step.state.wf(),
        s.remove_admin(caller, other) matches Ok(step) ==> step.state.wf(),
        s.configure_authorization(caller, flag, second_flag) matches Ok(step) ==> step.state.wf(),
        s.set_transfer_restriction(caller, flag) matches Ok(step) ==> step.state.wf(),
        s.purchase(caller, other, amount, b1, b2, b3, b4) matches Ok(step) ==> step.state.wf(),
        s.withdraw_usdc(caller, amount, b1, b2, b3, b4) matches Ok(step) ==> step.state.wf(),
{
    if let Ok(step) = s.transfer(caller, other, amount) {
        assert forall|a: Address| #[trigger] step.state.balances.contains_key(a) implies step.state.balances[a] >= 0 by {
            if a != caller && a != other {
                assert(s.balances.contains_key(a));
            }
        }
    }
    if let Ok(step) = s.clawback(caller, other, amount) {
        assert forall|a: Address| #[trigger] step.state.balances.contains_key(a) implies step.state.balances[a] >= 0 by {
            if a != s.metadata.issuer && a != other {
                assert(s.balances.contains_key(a));
            }
        }
    }
    if let Ok(step) = s.purchase(caller, other, amount, b1, b2, b3, b4) {
        assert forall|a: Address| #[trigger] step.state.balances.contains_key(a) implies step.state.balances[a] >= 0 by {
            if a != s.metadata.issuer && a != other {
                assert(s.balances.contains_key(a));
            }
        }
    }
}

/// A transfer moves tokens and makes none: the two balances together hold
/// what they held before, the sender `amount` less and the receiver `amount`
/// more, and no other balance changes.
pub proof fn lemma_transfer_conserves(s: TokenState, from: Address, to: Address, amount: i128, other: Address)
    requires
        s.transfer(from, to, amount) is Ok,
    ensures
        ({
            let after = s.transfer(from, to, amount)->Ok_0.state;
            &&& after.balance_of(from) == s.balance_of(from) - amount
            &&& after.balance_of(to) == s.balance_of(to) + amount
            &&& other != from && other != to ==> after.balance_of(other) == s.balance_of(other)
        }),
{
}

/// Whether two states hold the same records for `who`.
pub open spec fn same_records(a: TokenState, b: TokenState, who: Address) -> bool {
    &&& a.balance_of(who) == b.balance_of(who)
    &&& a.is_kyc_verified(who) == b.is_kyc_verified(who)
    &&& a.compliance_status(who) == b.compliance_status(who)
}

/// Whether two states are the same as far as the accounts `x`, `y` and the
/// issuer are concerned: they agree on everything but the records of other
/// accounts.
pub open spec fn same_for(a: TokenState, b: TokenState, x: Address, y: Address) -> bool {
    &&& a.contract_address == b.contract_address
    &&& a.metadata == b.metadata
    &&& a.config == b.config
    &&& a.admins == b.admins
    &&& a.usdc_balance == b.usdc_balance
    &&& same_records(a, b, x)
    &&& same_records(a, b, y)
    &&& same_records(a, b, a.metadata.issuer)
}

/// Whether two outcomes are the same as far as the accounts `x`, `y` and the
/// issuer are concerned.
pub open spec fn same_outcome_for(
    a: Result<TokenStep, TokenError>,
    b: Result<TokenStep, TokenError>,
    x: Address,
    y: Address,
) -> bool {
    match (a, b) {
        (Ok(p), Ok(q)) => p.event == q.event && same_for(p.state, q.state, x, y),
        (Err(e), Err(f)) => e == f,
        _ => false,
    }
}

/// A transfer looks at the records of the two accounts it names, and at no
/// other: on two states that are the same as far as those accounts are
/// concerned it has the same outcome as far as they are concerned. The token
/// may therefore be put together from its own record and the records of the
/// accounts an operation is about.
pub proof fn lemma_transfer_looks_at_named_accounts(
    a: TokenState,
    b: TokenState,
    from: Address,
    to: Address,
    amount: i128,
)
    requires
        same_for(a, b, from, to),
    ensures
        same_outcome_for(a.transfer(from, to, amount), b.transfer(from, to, amount), from, to),
{
    assert(a.compliance_refusal(from, to) == b.compliance_refusal(from, to));
    assert(a.is_admin(from) == b.is_admin(from));
    if let Ok(x) = a.transfer(from, to, amount) {
        let y = b.transfer(from, to, amount)->Ok_0;
        assert(same_records(x.state, y.state, from));
        assert(same_records(x.state, y.state, to));
        assert(same_records(x.state, y.state, a.metadata.issuer));
    }
}

/// A clawback looks at the records of the account it takes from and of the
/// issuer only.
pub proof fn lemma_clawback_looks_at_named_accounts(
    a: TokenState,
    b: TokenState,
    caller: Address,
    from: Address,
    amount: i128,
)
    requires
        same_for(a, b, caller, from),
    ensures
        same_outcome_for(
            a.clawback(caller, from, amount),
            b.clawback(caller, from, amount),
            caller,
            from,
        ),
{
    assert(a.is_admin(caller) == b.is_admin(caller));
    assert(a.clawed_back(from, amount) == b.clawed_back(from, amount));
    if let Ok(x) = a.clawback(caller, from, amount) {
        let y = b.clawback(caller, from, amount)->Ok_0;
        assert(same_records(x.state, y.state, caller));
        assert(same_records(x.state, y.state, from));
        assert(same_records(x.state, y.state, a.metadata.issuer));
    }
}

/// A purchase looks at the records of buyer, beneficiary and issuer only.
pub proof fn lemma_purchase_looks_at_named_accounts(
    a: TokenState,
    b: TokenState,
    buyer: Address,
    beneficiary: Address,
    amount: i128,
    b1: i128,
    b2: i128,
    b3: i128,
    b4: i128,
)
    requires
        same_for(a, b, buyer, beneficiary),
    ensures
        same_outcome_for(
            a.purchase(buyer, beneficiary, amount, b1, b2, b3, b4),
            b.purchase(buyer, beneficiary, amount, b1, b2, b3, b4),
            buyer,
            beneficiary,
        ),
{
}

/// Setting a flag or a status looks at the records of the account it is set
/// for only, and a withdrawal at no account's records.
pub proof fn lemma_settings_look_at_named_accounts(
    a: TokenState,
    b: TokenState,
    caller: Address,
    other: Address,
    amount: i128,
    flag: bool,
    status: ComplianceStatus,
    b1: i128,
    b2: i128,
    b3: i128,
    b4: i128,
)
    requires
        same_for(a, b, caller, other),
    ensures
        same_outcome_for(
            a.set_kyc_status(caller, other, flag),
            b.set_kyc_status(caller, other, flag),
            caller,
            other,
        ),
        same_outcome_for(
            a.set_compliance_status(caller, other, status),
            b.set_compliance_status(caller, other, status),
            caller,
            other,
        ),
        same_outcome_for(
            a.withdraw_usdc(caller, amount, b1, b2, b3, b4),
            b.withdraw_usdc(caller, amount, b1, b2, b3, b4),
            caller,
            other,
        ),
{
}

} // verus!
