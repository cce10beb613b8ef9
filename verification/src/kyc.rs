//! The compliance oracle: who is KYC-verified and what compliance status each
//! account has. An account is compliant when it is verified and approved.

use vstd::prelude::*;
use crate::address::{Address, AuthenticatedActor};
use crate::address_map::AddressMap;

verus! {

/// The compliance status of an account.
#[derive(Clone, Copy, Debug, PartialEq, Eq, Structural)]
pub enum ComplianceStatus {
    Pending,
    Approved,
    Rejected,
    Suspended,
}

/// What the oracle emits.
#[derive(Clone, Copy, Debug, PartialEq, Eq, Structural)]
pub enum KycEvent {
    /// The oracle was initialised by this admin.
    Initialized(Address),
    /// User, verified.
    KycStatusSet(Address, bool),
    /// User, status.
    ComplianceStatusSet(Address, ComplianceStatus),
}

/// Why the oracle refused.
#[derive(Clone, Copy, Debug, PartialEq, Eq, Structural)]
pub enum KycError {
    /// The oracle was initialised before.
    AlreadyInitialized,
    /// The oracle has not been initialised.
    NotInitialized,
    /// The actor is not the stored admin.
    NotAdmin,
    /// The user is not KYC-verified.
    NotVerified,
    /// The user's compliance status is not `Approved`.
    NotApproved,
}

/// The whole state of the oracle.
#[verifier::ext_equal]
pub struct KycState {
    /// The admin; `None` until the oracle is initialised.
    pub admin: Option<Address>,
    /// The verification flag of each account that has one.
    pub kyc_verified: Map<Address, bool>,
    /// The compliance status of each account that has one.
    pub compliance: Map<Address, ComplianceStatus>,
}

/// A successful operation: the state it leaves and the event it emitted.
#[verifier::ext_equal]
pub struct KycStep {
    pub state: KycState,
    pub event: KycEvent,
}

impl KycState {
    /// A deployed oracle before its initialisation.
    pub open spec fn uninitialized() -> KycState {
        KycState { admin: None, kyc_verified: Map::empty(), compliance: Map::empty() }
    }

    /// Whether `user` is KYC-verified; an account without a flag is not.
    pub open spec fn is_kyc_verified(self, user: Address) -> bool {
        self.kyc_verified.contains_key(user) && self.kyc_verified[user]
    }

    /// The compliance status of `user`; an account without one is `Pending`.
    pub open spec fn compliance_status(self, user: Address) -> ComplianceStatus {
        if self.compliance.contains_key(user) {
            self.compliance[user]
        } else {
            ComplianceStatus::Pending
        }
    }

    /// Whether `user` may trade: verified and approved.
    pub open spec fn is_compliant(self, user: Address) -> bool {
        self.is_kyc_verified(user) && self.compliance_status(user) == ComplianceStatus::Approved
    }

    /// The compliance check: passes exactly for a compliant user.
    pub open spec fn check_compliance(self, user: Address) -> Result<(), KycError> {
        if !self.is_kyc_verified(user) {
            Err(KycError::NotVerified)
        } else if self.compliance_status(user) != ComplianceStatus::Approved {
            Err(KycError::NotApproved)
        } else {
            Ok(())
        }
    }

    /// One-time initialisation.
    pub open spec fn initialize(self, admin: Address) -> Result<KycStep, KycError> {
        if self.admin is Some {
            Err(KycError::AlreadyInitialized)
        } else {
            Ok(
                KycStep {
                    state: KycState {
                        admin: Some(admin),
                        kyc_verified: self.kyc_verified,
                        compliance: self.compliance,
                    },
                    event: KycEvent::Initialized(admin),
                },
            )
        }
    }

    /// The admin sets the verification flag of `user`.
    pub open spec fn set_kyc_status(self, admin: Address, user: Address, verified: bool) -> Result<
        KycStep,
        KycError,
    > {
        match self.admin {
            None => Err(KycError::NotInitialized),
            Some(stored) => if admin != stored {
                Err(KycError::NotAdmin)
            } else {
                Ok(
                    KycStep {
                        state: KycState {
                            admin: self.admin,
                            kyc_verified: self.kyc_verified.insert(user, verified),
                            compliance: self.compliance,
                        },
                        event: KycEvent::KycStatusSet(user, verified),
                    },
                )
            },
        }
    }

    /// The admin sets the compliance status of `user`.
    pub open spec fn set_compliance_status(
        self,
        admin: Address,
        user: Address,
        status: ComplianceStatus,
    ) -> Result<KycStep, KycError> {
        match self.admin {
            None => Err(KycError::NotInitialized),
            Some(stored) => if admin != stored {
                Err(KycError::NotAdmin)
            } else {
                Ok(
                    KycStep {
                        state: KycState {
                            admin: self.admin,
                            kyc_verified: self.kyc_verified,
                            compliance: self.compliance.insert(user, status),
                        },
                        event: KycEvent::ComplianceStatusSet(user, status),
                    },
                )
            },
        }
    }
}

/// The compliance check passes exactly for users that are verified and
/// approved, and what is set for one user changes nothing for another.
pub proof fn lemma_compliance_gate(
    s: KycState,
    admin: Address,
    user: Address,
    other: Address,
    verified: bool,
    status: ComplianceStatus,
)
    ensures
        s.check_compliance(user) is Ok <==> s.is_compliant(user),
        s.set_kyc_status(admin, user, verified) matches Ok(step) ==> {
            &&& step.state.is_kyc_verified(user) == verified
            &&& step.state.compliance_status(user) == s.compliance_status(user)
            &&& other != user ==> step.state.is_compliant(other) == s.is_compliant(other)
        },
        s.set_compliance_status(admin, user, status) matches Ok(step) ==> {
            &&& step.state.compliance_status(user) == status
            &&& step.state.is_kyc_verified(user) == s.is_kyc_verified(user)
            &&& other != user ==> step.state.is_compliant(other) == s.is_compliant(other)
        },
{
}

/// The compliance oracle as an executable state object.
pub struct KycContract {
    admin: Option<Address>,
    kyc_verified: AddressMap<bool>,
    compliance: AddressMap<ComplianceStatus>,
}

impl KycContract {
    /// The state this oracle is in.
    pub closed spec fn view(&self) -> KycState {
        KycState {
            admin: self.admin,
            kyc_verified: self.kyc_verified@,
            compliance: self.compliance@,
        }
    }

    /// The invariant of the representation.
    pub closed spec fn inv(&self) -> bool {
        self.kyc_verified.inv() && self.compliance.inv()
    }

    /// A deployed oracle that has not been initialised.
    pub fn new() -> (kyc: KycContract)
        ensures
            kyc.inv(),
            kyc@ == KycState::uninitialized(),
    {
        KycContract { admin: None, kyc_verified: AddressMap::new(), compliance: AddressMap::new() }
    }

    /// Puts an oracle together from stored parts.
    pub fn restore(
        admin: Option<Address>,
        kyc_verified: AddressMap<bool>,
        compliance: AddressMap<ComplianceStatus>,
    ) -> (kyc: KycContract)
        requires
            kyc_verified.inv(),
            compliance.inv(),
        ensures
            kyc.inv(),
            kyc@ == (KycState { admin, kyc_verified: kyc_verified@, compliance: compliance@ }),
    {
        KycContract { admin, kyc_verified, compliance }
    }

    /// One-time initialisation by `admin`.
    pub fn initialize(&mut self, admin: &AuthenticatedActor) -> (r: Result<KycEvent, KycError>)
        requires
            old(self).inv(),
        ensures
            final(self).inv(),
            match old(self)@.initialize(admin@) {
                Ok(step) => r == Ok::<KycEvent, KycError>(step.event) && final(self)@
                    == step.state,
                Err(e) => r == Err::<KycEvent, KycError>(e) && final(self)@ == old(self)@,
            },
    {
        if self.admin.is_some() {
            return Err(KycError::AlreadyInitialized);
        }
        self.admin = Some(admin.address());
        Ok(KycEvent::Initialized(admin.address()))
    }

    /// The admin sets the verification flag of `user`.
    pub fn set_kyc_status(&mut self, admin: &AuthenticatedActor, user: Address, verified: bool) -> (r:
        Result<KycEvent, KycError>)
        requires
            old(self).inv(),
        ensures
            final(self).inv(),
            match old(self)@.set_kyc_status(admin@, user, verified) {
                Ok(step) => r == Ok::<KycEvent, KycError>(step.event) && final(self)@
                    == step.state,
                Err(e) => r == Err::<KycEvent, KycError>(e) && final(self)@ == old(self)@,
            },
    {
        let stored_admin = match self.admin {
            None => {
                return Err(KycError::NotInitialized);
            },
            Some(a) => a,
        };
        if admin.address() != stored_admin {
            return Err(KycError::NotAdmin);
        }
        self.kyc_verified.insert(user, verified);
        Ok(KycEvent::KycStatusSet(user, verified))
    }

    /// The admin sets the compliance status of `user`.
    pub fn set_compliance_status(
        &mut self,
        admin: &AuthenticatedActor,
        user: Address,
        status: ComplianceStatus,
    ) -> (r: Result<KycEvent, KycError>)
        requires
            old(self).inv(),
        ensures
            final(self).inv(),
            match old(self)@.set_compliance_status(admin@, user, status) {
                Ok(step) => r == Ok::<KycEvent, KycError>(step.event) && final(self)@
                    == step.state,
                Err(e) => r == Err::<KycEvent, KycError>(e) && final(self)@ == old(self)@,
            },
    {
        let stored_admin = match self.admin {
            None => {
                return Err(KycError::NotInitialized);
            },
            Some(a) => a,
        };
        if admin.address() != stored_admin {
            return Err(KycError::NotAdmin);
        }
        self.compliance.insert(user, status);
        Ok(KycEvent::ComplianceStatusSet(user, status))
    }

    /// Whether `user` is KYC-verified; an account nobody set is not.
    pub fn is_kyc_verified(&self, user: &Address) -> (verified: bool)
        requires
            self.inv(),
        ensures
            verified == self@.is_kyc_verified(*user),
    {
        match self.kyc_verified.get(user) {
            Some(flag) => *flag,
            None => false,
        }
    }

    /// The compliance status of `user`; an account nobody set is `Pending`.
    pub fn get_compliance_status(&self, user: &Address) -> (status: ComplianceStatus)
        requires
            self.inv(),
        ensures
            status == self@.compliance_status(*user),
    {
        match self.compliance.get(user) {
            Some(status) => *status,
            None => ComplianceStatus::Pending,
        }
    }

    /// The compliance check: passes exactly when `user` is KYC-verified and
    /// approved, and says which of the two is missing otherwise.
    pub fn check_compliance(&self, user: &Address) -> (r: Result<(), KycError>)
        requires
            self.inv(),
        ensures
            r == self@.check_compliance(*user),
            r is Ok <==> self@.is_compliant(*user),
    {
        if !self.is_kyc_verified(user) {
            return Err(KycError::NotVerified);
        }
        match self.get_compliance_status(user) {
            ComplianceStatus::Approved => Ok(()),
            _ => Err(KycError::NotApproved),
        }
    }

    /// The admin, once the oracle is initialised.
    pub fn get_admin(&self) -> (r: Result<Address, KycError>)
        ensures
            match self@.admin {
                Some(a) => r == Ok::<Address, KycError>(a),
                None => r == Err::<Address, KycError>(KycError::NotInitialized),
            },
    {
        match self.admin {
            Some(a) => Ok(a),
            None => Err(KycError::NotInitialized),
        }
    }
}

} // verus!
