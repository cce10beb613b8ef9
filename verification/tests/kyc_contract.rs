//! The compliance oracle.

use verse_contracts::{Address, AuthenticatedActor, ComplianceStatus, KycContract, KycError, KycEvent};

fn actor(address: Address) -> AuthenticatedActor {
    AuthenticatedActor::new(address)
}

#[test]
fn test_test_initialize() {
    let mut kyc = KycContract::new();
    let admin = Address::account(0, 1);

    assert_eq!(kyc.get_admin(), Err(KycError::NotInitialized));
    assert_eq!(kyc.initialize(&actor(admin)), Ok(KycEvent::Initialized(admin)));

    assert_eq!(kyc.get_admin(), Ok(admin));
}

#[test]
fn kyc_initialize_twice_is_refused() {
    let mut kyc = KycContract::new();
    let admin = Address::account(0, 1);

    kyc.initialize(&actor(admin)).unwrap();
    assert_eq!(kyc.initialize(&actor(admin)), Err(KycError::AlreadyInitialized));
    assert_eq!(kyc.initialize(&actor(Address::account(0, 2))), Err(KycError::AlreadyInitialized));
    assert_eq!(kyc.get_admin(), Ok(admin));
}

#[test]
fn test_set_and_get_kyc_status() {
    let mut kyc = KycContract::new();
    let admin = Address::account(0, 1);
    let user = Address::account(0, 2);

    kyc.initialize(&actor(admin)).unwrap();

    assert_eq!(kyc.is_kyc_verified(&user), false);

    assert_eq!(kyc.set_kyc_status(&actor(admin), user, true), Ok(KycEvent::KycStatusSet(user, true)));
    assert_eq!(kyc.is_kyc_verified(&user), true);

    kyc.set_kyc_status(&actor(admin), user, false).unwrap();
    assert_eq!(kyc.is_kyc_verified(&user), false);
}

#[test]
fn kyc_status_needs_the_admin() {
    let mut kyc = KycContract::new();
    let admin = Address::account(0, 1);
    let non_admin = Address::account(0, 3);
    let user = Address::account(0, 2);

    assert_eq!(kyc.set_kyc_status(&actor(admin), user, true), Err(KycError::NotInitialized));
    assert_eq!(
        kyc.set_compliance_status(&actor(admin), user, ComplianceStatus::Approved),
        Err(KycError::NotInitialized)
    );

    kyc.initialize(&actor(admin)).unwrap();

    assert_eq!(kyc.set_kyc_status(&actor(non_admin), user, true), Err(KycError::NotAdmin));
    assert_eq!(kyc.is_kyc_verified(&user), false);
    assert_eq!(
        kyc.set_compliance_status(&actor(non_admin), user, ComplianceStatus::Approved),
        Err(KycError::NotAdmin)
    );
    assert_eq!(kyc.get_compliance_status(&user), ComplianceStatus::Pending);
    // An account with the admin's key but another kind is not the admin.
    assert_eq!(
        kyc.set_kyc_status(&actor(Address::contract(0, 1)), user, true),
        Err(KycError::NotAdmin)
    );
}

#[test]
fn test_set_and_get_compliance_status() {
    let mut kyc = KycContract::new();
    let admin = Address::account(0, 1);
    let user = Address::account(0, 2);

    kyc.initialize(&actor(admin)).unwrap();

    assert_eq!(kyc.get_compliance_status(&user), ComplianceStatus::Pending);

    assert_eq!(
        kyc.set_compliance_status(&actor(admin), user, ComplianceStatus::Approved),
        Ok(KycEvent::ComplianceStatusSet(user, ComplianceStatus::Approved))
    );
    assert_eq!(kyc.get_compliance_status(&user), ComplianceStatus::Approved);

    kyc.set_compliance_status(&actor(admin), user, ComplianceStatus::Rejected).unwrap();
    assert_eq!(kyc.get_compliance_status(&user), ComplianceStatus::Rejected);

    kyc.set_compliance_status(&actor(admin), user, ComplianceStatus::Suspended).unwrap();
    assert_eq!(kyc.get_compliance_status(&user), ComplianceStatus::Suspended);

    kyc.set_compliance_status(&actor(admin), user, ComplianceStatus::Pending).unwrap();
    assert_eq!(kyc.get_compliance_status(&user), ComplianceStatus::Pending);
}

#[test]
fn test_check_compliance_success() {
    let mut kyc = KycContract::new();
    let admin = Address::account(0, 1);
    let user = Address::account(0, 2);

    kyc.initialize(&actor(admin)).unwrap();

    kyc.set_kyc_status(&actor(admin), user, true).unwrap();
    kyc.set_compliance_status(&actor(admin), user, ComplianceStatus::Approved).unwrap();

    assert_eq!(kyc.check_compliance(&user), Ok(()));
}

#[test]
fn check_compliance_says_what_is_missing() {
    let mut kyc = KycContract::new();
    let admin = Address::account(0, 1);
    let user = Address::account(0, 2);
    kyc.initialize(&actor(admin)).unwrap();

    // Nothing set.
    assert_eq!(kyc.check_compliance(&user), Err(KycError::NotVerified));

    // Approved but not verified.
    kyc.set_compliance_status(&actor(admin), user, ComplianceStatus::Approved).unwrap();
    assert_eq!(kyc.check_compliance(&user), Err(KycError::NotVerified));

    // Verified, and each status that is not `Approved`.
    kyc.set_kyc_status(&actor(admin), user, true).unwrap();
    for status in [ComplianceStatus::Pending, ComplianceStatus::Rejected, ComplianceStatus::Suspended] {
        kyc.set_compliance_status(&actor(admin), user, status).unwrap();
        assert_eq!(kyc.check_compliance(&user), Err(KycError::NotApproved));
    }

    kyc.set_compliance_status(&actor(admin), user, ComplianceStatus::Approved).unwrap();
    assert_eq!(kyc.check_compliance(&user), Ok(()));

    // Verification withdrawn.
    kyc.set_kyc_status(&actor(admin), user, false).unwrap();
    assert_eq!(kyc.check_compliance(&user), Err(KycError::NotVerified));
}

#[test]
fn test_multiple_users() {
    let mut kyc = KycContract::new();
    let admin = Address::account(0, 1);
    let user1 = Address::account(0, 11);
    let user2 = Address::account(0, 12);
    let user3 = Address::account(0, 13);

    kyc.initialize(&actor(admin)).unwrap();

    kyc.set_kyc_status(&actor(admin), user1, true).unwrap();
    kyc.set_compliance_status(&actor(admin), user1, ComplianceStatus::Approved).unwrap();

    kyc.set_kyc_status(&actor(admin), user2, true).unwrap();
    kyc.set_compliance_status(&actor(admin), user2, ComplianceStatus::Rejected).unwrap();

    kyc.set_kyc_status(&actor(admin), user3, false).unwrap();
    kyc.set_compliance_status(&actor(admin), user3, ComplianceStatus::Pending).unwrap();

    assert_eq!(kyc.is_kyc_verified(&user1), true);
    assert_eq!(kyc.get_compliance_status(&user1), ComplianceStatus::Approved);

    assert_eq!(kyc.is_kyc_verified(&user2), true);
    assert_eq!(kyc.get_compliance_status(&user2), ComplianceStatus::Rejected);

    assert_eq!(kyc.is_kyc_verified(&user3), false);
    assert_eq!(kyc.get_compliance_status(&user3), ComplianceStatus::Pending);

    assert_eq!(kyc.check_compliance(&user1), Ok(()));
    assert_eq!(kyc.check_compliance(&user2), Err(KycError::NotApproved));
    assert_eq!(kyc.check_compliance(&user3), Err(KycError::NotVerified));
}
