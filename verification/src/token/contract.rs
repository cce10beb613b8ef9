//! The security token as an executable state object. Each operation is proved
//! to take the step that the model describes, or to fail with the model's
//! error and leave the token as it was.

use vstd::prelude::*;
use crate::address::{Address, AuthenticatedActor};
use crate::address_map::AddressMap;
use crate::arith::checked_mul_div;
use crate::kyc::ComplianceStatus;
use crate::token::model::{
    lemma_operations_keep_wf, metadata_refusal, pow10, same_metadata, without, TokenState,
};
use crate::token::types::{ContractConfig, SecurityTokenEvent, TokenError, TokenMetadata};

verus! {

/// The security token: what it is, its switches, its admins, and what every
/// account holds and is cleared for.
pub struct SecurityTokenContract {
    contract_address: Address,
    metadata: TokenMetadata,
    config: ContractConfig,
    admins: Vec<Address>,
    usdc_balance: i128,
    balances: AddressMap<i128>,
    kyc_verified: AddressMap<bool>,
    compliance: AddressMap<ComplianceStatus>,
}

/// Ten to the power `decimals`, for at most seven decimals.
pub fn power_of_ten(decimals: u32) -> (p: i128)
    ensures
        p == pow10(decimals),
        0 < p <= 10_000_000,
{
    if decimals == 0 {
        1
    } else if decimals == 1 {
        10
    } else if decimals == 2 {
        100
    } else if decimals == 3 {
        1_000
    } else if decimals == 4 {
        10_000
    } else if decimals == 5 {
        100_000
    } else if decimals == 6 {
        1_000_000
    } else {
        10_000_000
    }
}

/// A copy of `bytes`.
fn copy_of(bytes: &Vec<u8>) -> (copy: Vec<u8>)
    ensures
        copy@ == bytes@,
{
    let mut copy: Vec<u8> = Vec::new();
    let mut i: usize = 0;
    while i < bytes.len()
        invariant
            i <= bytes@.len(),
            copy@ == bytes@.take(i as int),
        decreases bytes@.len() - i,
    {
        copy.push(bytes[i]);
        assert(copy@ =~= bytes@.take(i + 1));
        i += 1;
    }
    assert(copy@ =~= bytes@);
    copy
}

/// Whether `address` occurs in `list`.
fn listed(list: &Vec<Address>, address: &Address) -> (found: bool)
    ensures
        found == list@.contains(*address),
{
    let mut i: usize = 0;
    while i < list.len()
        invariant
            i <= list@.len(),
            forall|j: int| 0 <= j < i ==> list@[j] != *address,
        decreases list@.len() - i,
    {
        if list[i] == *address {
            return true;
        }
        i += 1;
    }
    false
}

/// `list` without every occurrence of `address`.
fn list_without(list: &Vec<Address>, address: &Address) -> (rest: Vec<Address>)
    ensures
        rest@ == without(list@, *address),
{
    let mut rest: Vec<Address> = Vec::new();
    let mut i: usize = 0;
    assert(list@.take(0) =~= Seq::<Address>::empty());
    while i < list.len()
        invariant
            i <= list@.len(),
            rest@ == without(list@.take(i as int), *address),
        decreases list@.len() - i,
    {
        proof {
            assert(list@.take(i + 1).drop_last() =~= list@.take(i as int));
            assert(list@.take(i + 1).last() == list@[i as int]);
        }
        if list[i] != *address {
            rest.push(list[i]);
        }
        i += 1;
    }
    assert(list@.take(i as int) =~= list@);
    rest
}

impl SecurityTokenContract {
    /// The state this token is in.
    pub closed spec fn view(&self) -> TokenState {
        TokenState {
            contract_address: self.contract_address,
            metadata: self.metadata,
            config: self.config,
            admins: self.admins@,
            usdc_balance: self.usdc_balance,
            balances: self.balances@,
            kyc_verified: self.kyc_verified@,
            compliance: self.compliance@,
        }
    }

    /// What the representation needs beyond the state it stands for.
    pub closed spec fn repr_inv(&self) -> bool {
        self.balances.inv() && self.kyc_verified.inv() && self.compliance.inv()
    }

    /// The invariant of every token: it stands for a well-formed state.
    pub open spec fn inv(&self) -> bool {
        self.repr_inv() && self@.wf()
    }

    /// Creates the token. The whole supply goes to the issuer, who is verified
    /// and approved from the start; `admin` and the issuer are the admins;
    /// authorisation is required and revocable, and transfers are restricted.
    ///
    /// Refused unless the supply lies in 1..=10^18, the decimals are at most
    /// seven, the price lies in 1..=10^12, the home domain has 1..=256 bytes,
    /// the name 1..=64 and the symbol 1..=12, and the stablecoin is not the
    /// token itself.
    pub fn initialize(
        contract_address: Address,
        name: Vec<u8>,
        symbol: Vec<u8>,
        decimals: u32,
        total_supply: i128,
        issuer: Address,
        home_domain: Vec<u8>,
        admin: &AuthenticatedActor,
        usdc_price: i128,
        usdc_token: Address,
    ) -> (r: Result<(SecurityTokenContract, SecurityTokenEvent), TokenError>)
        ensures
            ({
                let metadata = TokenMetadata {
                    name,
                    symbol,
                    decimals,
                    total_supply,
                    issuer,
                    home_domain,
                    usdc_price,
                    usdc_token,
                };
                match metadata_refusal(metadata, contract_address) {
                    Some(e) => r matches Err(error) && error == e,
                    None => r matches Ok(created) && created.0.inv() && created.0@
                        == TokenState::initial(contract_address, metadata, admin@) && (
                    created.1 matches SecurityTokenEvent::Init(announced) && same_metadata(
                        announced,
                        metadata,
                    )),
                }
            }),
    {
        let announced = TokenMetadata {
            name: copy_of(&name),
            symbol: copy_of(&symbol),
            decimals,
            total_supply,
            issuer,
            home_domain: copy_of(&home_domain),
            usdc_price,
            usdc_token,
        };
        let metadata = TokenMetadata {
            name,
            symbol,
            decimals,
            total_supply,
            issuer,
            home_domain,
            usdc_price,
            usdc_token,
        };
        match validate_metadata(&metadata, &contract_address) {
            Some(e) => {
                return Err(e);
            },
            None => {},
        }
        let mut admins: Vec<Address> = Vec::new();
        admins.push(admin.address());
        admins.push(issuer);
        let mut balances: AddressMap<i128> = AddressMap::new();
        balances.insert(issuer, total_supply);
        let mut kyc_verified: AddressMap<bool> = AddressMap::new();
        kyc_verified.insert(issuer, true);
        let mut compliance: AddressMap<ComplianceStatus> = AddressMap::new();
        compliance.insert(issuer, ComplianceStatus::Approved);
        let token = SecurityTokenContract {
            contract_address,
            metadata,
            config: ContractConfig {
                authorization_required: true,
                authorization_revocable: true,
                transfer_restricted: true,
            },
            admins,
            usdc_balance: 0,
            balances,
            kyc_verified,
            compliance,
        };
        proof {
            assert(token.admins@ =~= seq![admin@, issuer]);
        }
        Ok((token, SecurityTokenEvent::Init(announced)))
    }

    /// Whether `address` is an admin.
    pub fn is_admin(&self, address: &Address) -> (r: bool)
        ensures
            r == self@.is_admin(*address),
    {
        listed(&self.admins, address)
    }

    /// Whether `address` is the issuer.
    pub fn is_issuer(&self, address: &Address) -> (r: bool)
        ensures
            r == self@.is_issuer(*address),
    {
        self.metadata.issuer == *address
    }

    /// What the token is.
    pub fn get_metadata(&self) -> (m: &TokenMetadata)
        ensures
            *m == self@.metadata,
    {
        &self.metadata
    }

    /// The switches.
    pub fn get_config(&self) -> (c: ContractConfig)
        ensures
            c == self@.config,
    {
        self.config
    }

    /// The tokens `address` holds; an account nobody paid holds none.
    pub fn balance(&self, address: &Address) -> (b: i128)
        requires
            self.inv(),
        ensures
            b == self@.balance_of(*address),
    {
        match self.balances.get(address) {
            Some(b) => *b,
            None => 0,
        }
    }

    /// The compliance status of `address`; an account nobody set is
    /// `Pending`.
    pub fn check_compliance(&self, address: &Address) -> (status: ComplianceStatus)
        requires
            self.inv(),
        ensures
            status == self@.compliance_status(*address),
    {
        match self.compliance.get(address) {
            Some(status) => *status,
            None => ComplianceStatus::Pending,
        }
    }

    /// Whether `address` is KYC-verified; an account nobody set is not.
    pub fn is_kyc_verified(&self, address: &Address) -> (verified: bool)
        requires
            self.inv(),
        ensures
            verified == self@.is_kyc_verified(*address),
    {
        match self.kyc_verified.get(address) {
            Some(flag) => *flag,
            None => false,
        }
    }

    /// The stablecoin taken in by purchases and not yet withdrawn.
    pub fn usdc_balance(&self) -> (b: i128)
        ensures
            b == self@.usdc_balance,
    {
        self.usdc_balance
    }

    /// The price of a whole token in stablecoin units.
    pub fn token_price(&self) -> (price: i128)
        ensures
            price == self@.metadata.usdc_price,
    {
        self.metadata.usdc_price
    }

    /// The issuer.
    pub fn get_issuer(&self) -> (issuer: Address)
        ensures
            issuer == self@.metadata.issuer,
    {
        self.metadata.issuer
    }

    /// Whether tokens may pass between `from` and `to`: while authorisation is
    /// required, both must be KYC-verified and both approved.
    pub fn check_compliance_requirements(&self, from: &Address, to: &Address) -> (r: Result<
        (),
        TokenError,
    >)
        requires
            self.inv(),
        ensures
            match self@.compliance_refusal(*from, *to) {
                Some(e) => r == Err::<(), TokenError>(e),
                None => r == Ok::<(), TokenError>(()),
            },
    {
        if self.config.authorization_required {
            let from_kyc = self.is_kyc_verified(from);
            let to_kyc = self.is_kyc_verified(to);
            if !from_kyc || !to_kyc {
                return Err(TokenError::KycNotVerified);
            }
            let from_approved = match self.check_compliance(from) {
                ComplianceStatus::Approved => true,
                _ => false,
            };
            let to_approved = match self.check_compliance(to) {
                ComplianceStatus::Approved => true,
                _ => false,
            };
            if !from_approved || !to_approved {
                return Err(TokenError::ComplianceNotApproved);
            }
        }
        Ok(())
    }

    /// A transfer of `amount` tokens from `from` to `to`.
    ///
    /// Refused for an amount that is not positive; while transfers are
    /// restricted, for a sender who is no admin; while authorisation is
    /// required, unless both sides are verified and approved; for a transfer
    /// to oneself; and for more than the sender holds.
    pub fn transfer(&mut self, from: &AuthenticatedActor, to: Address, amount: i128) -> (r: Result<
        SecurityTokenEvent,
        TokenError,
    >)
        requires
            old(self).inv(),
        ensures
            final(self).inv(),
            match old(self)@.transfer(from@, to, amount) {
                Ok(step) => r matches Ok(event) && event == step.event && final(self)@
                    == step.state,
                Err(e) => r matches Err(error) && error == e && final(self)@ == old(self)@,
            },
    {
        let sender = from.address();
        if amount <= 0 {
            return Err(TokenError::InvalidAmount);
        }
        if self.config.transfer_restricted && !self.is_admin(&sender) {
            return Err(TokenError::TransferRestricted);
        }
        match self.check_compliance_requirements(&sender, &to) {
            Err(e) => {
                return Err(e);
            },
            Ok(_) => {},
        }
        if sender == to {
            return Err(TokenError::SelfTransferNotAllowed);
        }
        let from_balance = self.balance(&sender);
        let to_balance = self.balance(&to);
        if from_balance < amount {
            return Err(TokenError::InsufficientBalance);
        }
        let new_from_balance = from_balance - amount;
        let new_to_balance = match to_balance.checked_add(amount) {
            None => {
                return Err(TokenError::InsufficientBalance);
            },
            Some(sum) => sum,
        };
        proof {
            lemma_operations_keep_wf(
                self@,
                sender,
                to,
                amount,
                false,
                false,
                ComplianceStatus::Pending,
                0,
                0,
                0,
                0,
            );
        }
        self.balances.insert(sender, new_from_balance);
        self.balances.insert(to, new_to_balance);
        Ok(SecurityTokenEvent::Transfer(sender, to, amount))
    }

    /// An admin sets the verification flag of `address`. While authorisation
    /// is not revocable, a verification cannot be taken back.
    pub fn set_kyc_status(&mut self, caller: &AuthenticatedActor, address: Address, verified: bool) -> (r:
        Result<SecurityTokenEvent, TokenError>)
        requires
            old(self).inv(),
        ensures
            final(self).inv(),
            match old(self)@.set_kyc_status(caller@, address, verified) {
                Ok(step) => r matches Ok(event) && event == step.event && final(self)@
                    == step.state,
                Err(e) => r matches Err(error) && error == e && final(self)@ == old(self)@,
            },
    {
        if !self.is_admin(&caller.address()) {
            return Err(TokenError::NotAdminKyc);
        }
        if !self.config.authorization_revocable && !verified {
            if self.is_kyc_verified(&address) {
                return Err(TokenError::AuthorizationNotRevocable);
            }
        }
        self.kyc_verified.insert(address, verified);
        Ok(SecurityTokenEvent::KycVerified(address, verified))
    }

    /// An admin sets the compliance status of `address`. While authorisation
    /// is not revocable, an approval cannot be taken back.
    pub fn set_compliance_status(
        &mut self,
        caller: &AuthenticatedActor,
        address: Address,
        status: ComplianceStatus,
    ) -> (r: Result<SecurityTokenEvent, TokenError>)
        requires
            old(self).inv(),
        ensures
            final(self).inv(),
            match old(self)@.set_compliance_status(caller@, address, status) {
                Ok(step) => r matches Ok(event) && event == step.event && final(self)@
                    == step.state,
                Err(e) => r matches Err(error) && error == e && final(self)@ == old(self)@,
            },
    {
        if !self.is_admin(&caller.address()) {
            return Err(TokenError::NotAdminCompliance);
        }
        let downgrade = match status {
            ComplianceStatus::Approved => false,
            _ => true,
        };
        if !self.config.authorization_revocable && downgrade {
            match self.check_compliance(&address) {
                ComplianceStatus::Approved => {
                    return Err(TokenError::AuthorizationNotRevocable);
                },
                _ => {},
            }
        }
        self.compliance.insert(address, status);
        Ok(SecurityTokenEvent::ComplianceUpdated(address, status))
    }

    /// An admin takes tokens from `from` and gives them to the issuer: the
    /// `amount` asked for, or all that `from` holds if that is less. The event
    /// names what was taken.
    pub fn clawback(&mut self, caller: &AuthenticatedActor, from: Address, amount: i128) -> (r: Result<
        SecurityTokenEvent,
        TokenError,
    >)
        requires
            old(self).inv(),
        ensures
            final(self).inv(),
            match old(self)@.clawback(caller@, from, amount) {
                Ok(step) => r matches Ok(event) && event == step.event && final(self)@
                    == step.state,
                Err(e) => r matches Err(error) && error == e && final(self)@ == old(self)@,
            },
    {
        if !self.is_admin(&caller.address()) {
            return Err(TokenError::NotAdminClawback);
        }
        if amount <= 0 {
            return Err(TokenError::InvalidAmount);
        }
        let current_balance = self.balance(&from);
        let taken = if current_balance < amount {
            current_balance
        } else {
            amount
        };
        let issuer = self.metadata.issuer;
        let issuer_balance = self.balance(&issuer);
        let new_balance = match current_balance.checked_sub(taken) {
            None => {
                return Err(TokenError::InsufficientBalance);
            },
            Some(rest) => rest,
        };
        let new_issuer_balance = match issuer_balance.checked_add(taken) {
            None => {
                return Err(TokenError::InsufficientBalance);
            },
            Some(sum) => sum,
        };
        proof {
            lemma_operations_keep_wf(
                self@,
                caller@,
                from,
                amount,
                false,
                false,
                ComplianceStatus::Pending,
                0,
                0,
                0,
                0,
            );
        }
        self.balances.insert(from, new_balance);
        self.balances.insert(issuer, new_issuer_balance);
        Ok(SecurityTokenEvent::ClawbackExecuted(from, taken))
    }

    /// The issuer makes `new_admin` an admin.
    pub fn add_admin(&mut self, caller: &AuthenticatedActor, new_admin: Address) -> (r: Result<
        SecurityTokenEvent,
        TokenError,
    >)
        requires
            old(self).inv(),
        ensures
            final(self).inv(),
            match old(self)@.add_admin(caller@, new_admin) {
                Ok(step) => r matches Ok(event) && event == step.event && final(self)@
                    == step.state,
                Err(e) => r matches Err(error) && error == e && final(self)@ == old(self)@,
            },
    {
        if !self.is_issuer(&caller.address()) {
            return Err(TokenError::NotAdminAddAdmin);
        }
        if self.is_admin(&new_admin) {
            return Err(TokenError::DuplicateAdmin);
        }
        self.admins.push(new_admin);
        Ok(SecurityTokenEvent::AdminAdded(caller.address(), new_admin))
    }

    /// The issuer takes the admin role from `admin_to_remove`, which may not
    /// be the issuer itself.
    pub fn remove_admin(&mut self, caller: &AuthenticatedActor, admin_to_remove: Address) -> (r:
        Result<SecurityTokenEvent, TokenError>)
        requires
            old(self).inv(),
        ensures
            final(self).inv(),
            match old(self)@.remove_admin(caller@, admin_to_remove) {
                Ok(step) => r matches Ok(event) && event == step.event && final(self)@
                    == step.state,
                Err(e) => r matches Err(error) && error == e && final(self)@ == old(self)@,
            },
    {
        if !self.is_issuer(&caller.address()) {
            return Err(TokenError::NotIssuer);
        }
        if self.is_issuer(&admin_to_remove) {
            return Err(TokenError::CannotRemoveIssuer);
        }
        if !self.is_admin(&admin_to_remove) {
            return Err(TokenError::NotAnAdmin);
        }
        let rest = list_without(&self.admins, &admin_to_remove);
        self.admins = rest;
        Ok(SecurityTokenEvent::AdminRemoved(caller.address(), admin_to_remove))
    }

    /// An admin sets whether authorisation is required and whether it is
    /// revocable.
    pub fn configure_authorization(&mut self, caller: &AuthenticatedActor, required: bool, revocable: bool) -> (r:
        Result<SecurityTokenEvent, TokenError>)
        requires
            old(self).inv(),
        ensures
            final(self).inv(),
            match old(self)@.configure_authorization(caller@, required, revocable) {
                Ok(step) => r matches Ok(event) && event == step.event && final(self)@
                    == step.state,
                Err(e) => r matches Err(error) && error == e && final(self)@ == old(self)@,
            },
    {
        if !self.is_admin(&caller.address()) {
            return Err(TokenError::NotAdminConfigureAuth);
        }
        self.config = ContractConfig {
            authorization_required: required,
            authorization_revocable: revocable,
            transfer_restricted: self.config.transfer_restricted,
        };
        Ok(SecurityTokenEvent::AuthorizationChanged(required, revocable))
    }

    /// An admin sets whether only admins may transfer.
    pub fn set_transfer_restriction(&mut self, caller: &AuthenticatedActor, restricted: bool) -> (r:
        Result<SecurityTokenEvent, TokenError>)
        requires
            old(self).inv(),
        ensures
            final(self).inv(),
            match old(self)@.set_transfer_restriction(caller@, restricted) {
                Ok(step) => r matches Ok(event) && event == step.event && final(self)@
                    == step.state,
                Err(e) => r matches Err(error) && error == e && final(self)@ == old(self)@,
            },
    {
        if !self.is_admin(&caller.address()) {
            return Err(TokenError::NotAdminTransferRestriction);
        }
        self.config = ContractConfig {
            authorization_required: self.config.authorization_required,
            authorization_revocable: self.config.authorization_revocable,
            transfer_restricted: restricted,
        };
        Ok(SecurityTokenEvent::TransferRestrictionChanged(restricted))
    }

    /// What `token_amount` tokens cost `buyer`, who holds `buyer_usdc`
    /// stablecoin and buys for `beneficiary`:
    /// `token_amount * usdc_price / 10^decimals`, truncated. Refused for an
    /// amount that is not positive, unless buyer and beneficiary may receive
    /// tokens from the issuer, for a cost that overflows or is not positive,
    /// and for a buyer who holds less than the cost.
    pub fn check_purchase(
        &self,
        buyer: &AuthenticatedActor,
        beneficiary: &Address,
        token_amount: i128,
        buyer_usdc: i128,
    ) -> (r: Result<i128, TokenError>)
        requires
            self.inv(),
        ensures
            r == self@.purchase_cost(buyer@, *beneficiary, token_amount, buyer_usdc),
    {
        if token_amount <= 0 {
            return Err(TokenError::InvalidPurchaseAmount);
        }
        let issuer = self.metadata.issuer;
        match self.check_compliance_requirements(&issuer, &buyer.address()) {
            Err(e) => {
                return Err(e);
            },
            Ok(_) => {},
        }
        match self.check_compliance_requirements(&issuer, beneficiary) {
            Err(e) => {
                return Err(e);
            },
            Ok(_) => {},
        }
        let unit = power_of_ten(self.metadata.decimals);
        let cost = match checked_mul_div(token_amount, self.metadata.usdc_price, unit) {
            None => {
                return Err(TokenError::CalculationOverflow);
            },
            Some(c) => c,
        };
        if cost <= 0 {
            return Err(TokenError::CalculationOverflow);
        }
        if buyer_usdc < cost {
            return Err(TokenError::InsufficientUsdcBalance);
        }
        Ok(cost)
    }

    /// A purchase of `token_amount` tokens by `buyer` for `beneficiary`. The
    /// four balances are the stablecoin held by the buyer and by the token
    /// contract, read before and after the buyer paid the cost to the
    /// contract.
    ///
    /// Refused as [`check_purchase`](Self::check_purchase) says, if either
    /// balance did not change by exactly the cost, and if the issuer holds
    /// fewer tokens than are bought. On success the tokens pass from the issuer
    /// to the beneficiary and the cost joins the stablecoin taken in.
    pub fn purchase(
        &mut self,
        buyer: &AuthenticatedActor,
        beneficiary: Address,
        token_amount: i128,
        buyer_usdc_before: i128,
        contract_usdc_before: i128,
        buyer_usdc_after: i128,
        contract_usdc_after: i128,
    ) -> (r: Result<SecurityTokenEvent, TokenError>)
        requires
            old(self).inv(),
        ensures
            final(self).inv(),
            match old(self)@.purchase(
                buyer@,
                beneficiary,
                token_amount,
                buyer_usdc_before,
                contract_usdc_before,
                buyer_usdc_after,
                contract_usdc_after,
            ) {
                Ok(step) => r matches Ok(event) && event == step.event && final(self)@
                    == step.state,
                Err(e) => r matches Err(error) && error == e && final(self)@ == old(self)@,
            },
    {
        let cost = match self.check_purchase(buyer, &beneficiary, token_amount, buyer_usdc_before) {
            Err(e) => {
                return Err(e);
            },
            Ok(c) => c,
        };
        match buyer_usdc_before.checked_sub(cost) {
            None => {
                return Err(TokenError::UsdcTransferVerificationFailed);
            },
            Some(expected) => {
                if buyer_usdc_after != expected {
                    return Err(TokenError::UsdcTransferVerificationFailed);
                }
            },
        }
        match contract_usdc_before.checked_add(cost) {
            None => {
                return Err(TokenError::UsdcTransferVerificationFailed);
            },
            Some(expected) => {
                if contract_usdc_after != expected {
                    return Err(TokenError::UsdcTransferVerificationFailed);
                }
            },
        }
        let issuer = self.metadata.issuer;
        let issuer_balance = self.balance(&issuer);
        let beneficiary_balance = self.balance(&beneficiary);
        if issuer_balance < token_amount {
            return Err(TokenError::InsufficientIssuerTokens);
        }
        let new_issuer_balance = match issuer_balance.checked_sub(token_amount) {
            None => {
                return Err(TokenError::InsufficientBalance);
            },
            Some(rest) => rest,
        };
        let new_beneficiary_balance = match beneficiary_balance.checked_add(token_amount) {
            None => {
                return Err(TokenError::InsufficientBalance);
            },
            Some(sum) => sum,
        };
        let new_usdc_balance = match self.usdc_balance.checked_add(cost) {
            None => {
                return Err(TokenError::InsufficientBalance);
            },
            Some(sum) => sum,
        };
        proof {
            lemma_operations_keep_wf(
                self@,
                buyer@,
                beneficiary,
                token_amount,
                false,
                false,
                ComplianceStatus::Pending,
                buyer_usdc_before,
                contract_usdc_before,
                buyer_usdc_after,
                contract_usdc_after,
            );
        }
        self.balances.insert(issuer, new_issuer_balance);
        self.balances.insert(beneficiary, new_beneficiary_balance);
        self.usdc_balance = new_usdc_balance;
        Ok(SecurityTokenEvent::Purchase(buyer.address(), beneficiary, token_amount, cost))
    }

    /// Whether the issuer may withdraw `amount` of the stablecoin taken in,
    /// given the stablecoin the token contract holds: the amount must be
    /// positive, at most what was taken in, and at most what the contract
    /// holds.
    pub fn check_withdrawal(&self, caller: &AuthenticatedActor, amount: i128, contract_usdc: i128) -> (r:
        Result<(), TokenError>)
        ensures
            match self@.withdrawal_refusal(caller@, amount, contract_usdc) {
                Some(e) => r == Err::<(), TokenError>(e),
                None => r == Ok::<(), TokenError>(()),
            },
    {
        if !self.is_issuer(&caller.address()) {
            return Err(TokenError::NotIssuer);
        }
        if amount <= 0 || amount > self.usdc_balance {
            return Err(TokenError::InvalidWithdrawAmount);
        }
        if contract_usdc < amount {
            return Err(TokenError::InsufficientUsdcInContract);
        }
        Ok(())
    }

    /// The issuer withdraws `amount` of the stablecoin taken in. The four
    /// balances are the stablecoin held by the token contract and by the
    /// issuer, read before and after the contract paid the amount.
    ///
    /// Refused as [`check_withdrawal`](Self::check_withdrawal) says and if
    /// either balance did not change by exactly the amount.
    pub fn withdraw_usdc(
        &mut self,
        caller: &AuthenticatedActor,
        amount: i128,
        contract_usdc_before: i128,
        caller_usdc_before: i128,
        contract_usdc_after: i128,
        caller_usdc_after: i128,
    ) -> (r: Result<SecurityTokenEvent, TokenError>)
        requires
            old(self).inv(),
        ensures
            final(self).inv(),
            match old(self)@.withdraw_usdc(
                caller@,
                amount,
                contract_usdc_before,
                caller_usdc_before,
                contract_usdc_after,
                caller_usdc_after,
            ) {
                Ok(step) => r matches Ok(event) && event == step.event && final(self)@
                    == step.state,
                Err(e) => r matches Err(error) && error == e && final(self)@ == old(self)@,
            },
    {
        match self.check_withdrawal(caller, amount, contract_usdc_before) {
            Err(e) => {
                return Err(e);
            },
            Ok(_) => {},
        }
        match contract_usdc_before.checked_sub(amount) {
            None => {
                return Err(TokenError::UsdcWithdrawalVerificationFailed);
            },
            Some(expected) => {
                if contract_usdc_after != expected {
                    return Err(TokenError::UsdcWithdrawalVerificationFailed);
                }
            },
        }
        match caller_usdc_before.checked_add(amount) {
            None => {
                return Err(TokenError::UsdcWithdrawalVerificationFailed);
            },
            Some(expected) => {
                if caller_usdc_after != expected {
                    return Err(TokenError::UsdcWithdrawalVerificationFailed);
                }
            },
        }
        let new_usdc_balance = match self.usdc_balance.checked_sub(amount) {
            None => {
                return Err(TokenError::InsufficientBalance);
            },
            Some(rest) => rest,
        };
        self.usdc_balance = new_usdc_balance;
        Ok(SecurityTokenEvent::UsdcWithdrawn(caller.address(), amount))
    }

    /// Whether `caller` may have the lifetime of the token's own record
    /// extended: only an admin may.
    pub fn bump_instance_ttl(&self, caller: &AuthenticatedActor) -> (r: Result<(), TokenError>)
        ensures
            r == if self@.is_admin(caller@) {
                Ok::<(), TokenError>(())
            } else {
                Err::<(), TokenError>(TokenError::NotAdminTtl)
            },
    {
        if !self.is_admin(&caller.address()) {
            return Err(TokenError::NotAdminTtl);
        }
        Ok(())
    }

    /// Whether `caller` may have the lifetime of the records of `addresses`
    /// extended: only an admin may, for any list.
    pub fn bump_user_ttls(&self, caller: &AuthenticatedActor, addresses: &Vec<Address>) -> (r:
        Result<(), TokenError>)
        ensures
            r == if self@.is_admin(caller@) {
                Ok::<(), TokenError>(())
            } else {
                Err::<(), TokenError>(TokenError::NotAdminTtl)
            },
    {
        if !self.is_admin(&caller.address()) {
            return Err(TokenError::NotAdminTtl);
        }
        Ok(())
    }
}

/// Why `metadata` cannot be the metadata of the token at `contract_address`;
/// `None` if it can.
pub fn validate_metadata(metadata: &TokenMetadata, contract_address: &Address) -> (r: Option<
    TokenError,
>)
    ensures
        r == metadata_refusal(*metadata, *contract_address),
{
    if metadata.total_supply <= 0 {
        return Some(TokenError::InvalidTotalSupply);
    }
    if metadata.total_supply > 1_000_000_000_000_000_000 {
        return Some(TokenError::TotalSupplyTooLarge);
    }
    if metadata.decimals > 7 {
        return Some(TokenError::InvalidDecimals);
    }
    if metadata.usdc_price <= 0 {
        return Some(TokenError::InvalidPrice);
    }
    if metadata.usdc_price > 1_000_000_000_000 {
        return Some(TokenError::PriceTooLarge);
    }
    if metadata.home_domain.len() == 0 {
        return Some(TokenError::EmptyHomeDomain);
    }
    if metadata.home_domain.len() > 256 {
        return Some(TokenError::HomeDomainTooLong);
    }
    if metadata.name.len() == 0 {
        return Some(TokenError::EmptyName);
    }
    if metadata.name.len() > 64 {
        return Some(TokenError::NameTooLong);
    }
    if metadata.symbol.len() == 0 {
        return Some(TokenError::EmptySymbol);
    }
    if metadata.symbol.len() > 12 {
        return Some(TokenError::SymbolTooLong);
    }
    if metadata.usdc_token == *contract_address {
        return Some(TokenError::UsdcTokenIsContract);
    }
    None
}

/// Whether no balance of `balances` is negative.
fn none_negative(balances: &AddressMap<i128>) -> (ok: bool)
    requires
        balances.inv(),
    ensures
        ok == crate::token::model::balances_wf(balances@),
{
    proof {
        balances.lemma_view_of_entries();
    }
    let mut i: usize = 0;
    while i < balances.len()
        invariant
            balances.inv(),
            i <= balances.entries_view().len(),
            crate::address_map::distinct_keys(balances.entries_view()),
            balances@ == crate::address_map::entries_to_map(balances.entries_view()),
            forall|j: int| 0 <= j < i ==> (#[trigger] balances.entries_view()[j]).value >= 0,
        decreases balances.entries_view().len() - i,
    {
        let entry = balances.entry_at(i);
        proof {
            crate::address_map::lemma_entry_at(balances.entries_view(), i as int);
        }
        if entry.value < 0 {
            return false;
        }
        i += 1;
    }
    proof {
        assert forall|a: Address| #[trigger] balances@.contains_key(a) implies balances@[a]
            >= 0 by {
            assert(crate::address_map::has_key(balances.entries_view(), a));
            let j = crate::address_map::index_of(balances.entries_view(), a);
            crate::address_map::lemma_entry_at(balances.entries_view(), j);
        }
    }
    true
}

impl SecurityTokenContract {
    /// Puts a token together from stored parts. The parts are refused unless
    /// the metadata is valid and neither the stablecoin taken in nor any token
    /// balance is negative.
    pub fn restore(
        contract_address: Address,
        metadata: TokenMetadata,
        config: ContractConfig,
        admins: Vec<Address>,
        usdc_balance: i128,
        balances: AddressMap<i128>,
        kyc_verified: AddressMap<bool>,
        compliance: AddressMap<ComplianceStatus>,
    ) -> (r: Result<SecurityTokenContract, TokenError>)
        requires
            balances.inv(),
            kyc_verified.inv(),
            compliance.inv(),
        ensures
            ({
                let state = TokenState {
                    contract_address,
                    metadata,
                    config,
                    admins: admins@,
                    usdc_balance,
                    balances: balances@,
                    kyc_verified: kyc_verified@,
                    compliance: compliance@,
                };
                match r {
                    Ok(token) => token.inv() && token@ == state,
                    Err(e) => e == TokenError::InconsistentState && !state.wf(),
                }
            }),
    {
        if validate_metadata(&metadata, &contract_address).is_some() {
            return Err(TokenError::InconsistentState);
        }
        if usdc_balance < 0 {
            return Err(TokenError::InconsistentState);
        }
        if !none_negative(&balances) {
            return Err(TokenError::InconsistentState);
        }
        Ok(
            SecurityTokenContract {
                contract_address,
                metadata,
                config,
                admins,
                usdc_balance,
                balances,
                kyc_verified,
                compliance,
            },
        )
    }

    /// The admins, in the order in which they were added.
    pub fn admins(&self) -> (list: &Vec<Address>)
        ensures
            list@ == self@.admins,
    {
        &self.admins
    }
}

} // verus!
