//! The vault's rules one by one: admission, the buffer, the queue, withdrawal,
//! pause, estimates, and every refusal.

use verse_contracts::vault::contract::{
    compute_buffer_threshold, credit_stats, seconds_to_accumulate,
};
use verse_contracts::{
    Address, AuthenticatedActor, LiquidationRequest, PropertyVaultStats, QueueStatus, VaultConfig,
    VaultContract, VaultError, VaultEvent,
};

const NOW: u64 = 1_700_000_000;
const NINETY_DAYS: u64 = 7_776_000;

fn actor(address: Address) -> AuthenticatedActor {
    AuthenticatedActor::new(address)
}

fn admin() -> Address {
    Address::account(0, 1)
}

fn property() -> Address {
    Address::contract(0, 50)
}

fn user(n: u128) -> Address {
    Address::account(1, n)
}

/// A vault funded with `amount`, with one authorised property. The stablecoin
/// balances handed to the vault are those of a ledger that does what it is told.
fn funded(amount: i128) -> VaultContract {
    let mut vault = VaultContract::new(Address::contract(0, 2));
    vault.initialize(&actor(admin()), Address::contract(0, 3)).unwrap();
    fund(&mut vault, amount).unwrap();
    vault.authorize_property(&actor(admin()), property()).unwrap();
    vault
}

fn fund(vault: &mut VaultContract, amount: i128) -> Result<Vec<VaultEvent>, VaultError> {
    vault.fund_vault(&actor(admin()), amount, amount, 0, amount, NOW)
}

fn request(vault: &mut VaultContract, who: Address, amount: i128) -> Result<Vec<VaultEvent>, VaultError> {
    vault.request_liquidation(&actor(property()), who, amount, i128::MAX, NOW)
}

fn paid(events: &Vec<VaultEvent>) -> Vec<(Address, i128)> {
    let mut out = Vec::new();
    for event in events {
        if let VaultEvent::LiquidationExecuted(_, who, amount) = event {
            out.push((*who, *amount));
        }
    }
    out
}

#[test]
fn initialize_sets_the_defaults_once() {
    let vault_address = Address::contract(0, 2);
    let stablecoin = Address::contract(0, 3);
    let mut vault = VaultContract::new(vault_address);
    assert_eq!(vault.contract_address(), vault_address);
    assert_eq!(vault.get_config(), Err(VaultError::NotInitialized));
    assert_eq!(vault.available_liquidity(), Err(VaultError::NotInitialized));
    assert_eq!(vault.total_capacity(), Err(VaultError::NotInitialized));
    assert_eq!(vault.get_queue_status(NOW), Err(VaultError::NotInitialized));

    assert_eq!(
        vault.initialize(&actor(admin()), vault_address),
        Err(VaultError::StablecoinIsVault)
    );
    assert_eq!(vault.get_config(), Err(VaultError::NotInitialized));

    assert_eq!(
        vault.initialize(&actor(admin()), stablecoin),
        Ok(vec![VaultEvent::Initialized(admin())])
    );
    assert_eq!(
        vault.get_config(),
        Ok(VaultConfig {
            admin: admin(),
            stablecoin_address: stablecoin,
            total_capacity: 0,
            available: 0,
            buffer_percentage: 15,
            controlled_mode: false,
            emergency_pause: false,
        })
    );
    assert_eq!(vault.available_liquidity(), Ok(0));
    assert_eq!(vault.total_capacity(), Ok(0));
    assert_eq!(
        vault.get_queue_status(NOW),
        Ok(QueueStatus {
            total_queued: 0,
            total_amount: 0,
            controlled_mode: false,
            head_index: 0,
            tail_index: 0,
            estimated_clear_time: NOW,
        })
    );

    assert_eq!(vault.initialize(&actor(admin()), stablecoin), Err(VaultError::AlreadyInitialized));
    assert_eq!(vault.initialize(&actor(user(1)), vault_address), Err(VaultError::AlreadyInitialized));
}

#[test]
fn every_operation_needs_an_initialised_vault() {
    let mut vault = VaultContract::new(Address::contract(0, 2));
    let a = actor(admin());
    assert_eq!(vault.check_funding(&a, 1, 1), Err(VaultError::NotInitialized));
    assert_eq!(vault.fund_vault(&a, 1, 1, 0, 1, NOW), Err(VaultError::NotInitialized));
    assert_eq!(vault.authorize_property(&a, property()), Err(VaultError::NotInitialized));
    assert_eq!(vault.check_withdrawal(&a, 1, 1), Err(VaultError::NotInitialized));
    assert_eq!(vault.withdraw_liquidity(&a, 1, 1, 0), Err(VaultError::NotInitialized));
    assert_eq!(vault.emergency_pause(&a, NOW), Err(VaultError::NotInitialized));
    assert_eq!(vault.emergency_unpause(&a, NOW), Err(VaultError::NotInitialized));
    assert_eq!(vault.update_buffer_percentage(&a, 15), Err(VaultError::NotInitialized));
    assert_eq!(
        vault.request_liquidation(&actor(property()), user(1), 1, 1, NOW),
        Err(VaultError::NotInitialized)
    );
    assert_eq!(vault.is_authorized(&property()), false);
    assert_eq!(vault.get_property_stats(&property()), None);
}

#[test]
fn funding_is_checked_then_grows_capacity_and_liquidity() {
    let mut vault = funded(1_000);
    let a = actor(admin());
    let stranger = actor(user(9));

    assert_eq!(vault.fund_vault(&stranger, 10, 10, 1_000, 1_010, NOW), Err(VaultError::NotAdmin));
    assert_eq!(vault.fund_vault(&a, 0, 10, 1_000, 1_000, NOW), Err(VaultError::InvalidAmount));
    assert_eq!(vault.fund_vault(&a, -5, 10, 1_000, 995, NOW), Err(VaultError::InvalidAmount));
    assert_eq!(vault.fund_vault(&a, 10, 9, 1_000, 1_010, NOW), Err(VaultError::InsufficientAdminBalance));
    assert_eq!(vault.check_funding(&a, 10, 9), Err(VaultError::InsufficientAdminBalance));
    assert_eq!(vault.check_funding(&a, 10, 10), Ok(()));
    // The vault's balance must have grown by exactly the deposit.
    assert_eq!(vault.fund_vault(&a, 10, 10, 1_000, 1_009, NOW), Err(VaultError::TransferVerificationFailed));
    assert_eq!(vault.fund_vault(&a, 10, 10, 1_000, 1_011, NOW), Err(VaultError::TransferVerificationFailed));
    assert_eq!(vault.fund_vault(&a, 10, 10, 1_000, 1_000, NOW), Err(VaultError::TransferVerificationFailed));
    assert_eq!(vault.fund_vault(&a, 10, 10, i128::MAX, i128::MAX, NOW), Err(VaultError::Overflow));
    assert_eq!(
        vault.fund_vault(&a, i128::MAX, i128::MAX, 0, i128::MAX, NOW),
        Err(VaultError::Overflow)
    );
    assert_eq!(vault.total_capacity(), Ok(1_000));
    assert_eq!(vault.available_liquidity(), Ok(1_000));

    assert_eq!(
        vault.fund_vault(&a, 10, 10, 1_000, 1_010, NOW),
        Ok(vec![VaultEvent::Funded(admin(), 10, 1_010)])
    );
    assert_eq!(vault.total_capacity(), Ok(1_010));
    assert_eq!(vault.available_liquidity(), Ok(1_010));

    vault.emergency_pause(&a, NOW).unwrap();
    assert_eq!(vault.fund_vault(&a, 10, 10, 1_010, 1_020, NOW), Err(VaultError::EmergencyPaused));
    assert_eq!(vault.check_funding(&a, 10, 10), Err(VaultError::EmergencyPaused));
}

#[test]
fn authorisation_is_by_the_admin_and_once() {
    let mut vault = funded(1_000);
    let other = Address::contract(0, 51);
    assert_eq!(vault.is_authorized(&property()), true);
    assert_eq!(vault.is_authorized(&other), false);
    assert_eq!(
        vault.get_property_stats(&property()),
        Some(PropertyVaultStats {
            property_contract: property(),
            total_liquidated: 0,
            last_liquidation: 0,
            active_users: 0,
            cash_flow_monthly: 0,
        })
    );
    assert_eq!(vault.get_property_stats(&other), None);

    assert_eq!(vault.authorize_property(&actor(user(1)), other), Err(VaultError::NotAdmin));
    assert_eq!(vault.authorize_property(&actor(admin()), property()), Err(VaultError::AlreadyAuthorized));
    assert_eq!(vault.is_authorized(&other), false);
    assert_eq!(
        vault.authorize_property(&actor(admin()), other),
        Ok(vec![VaultEvent::PropertyAuthorized(admin(), other)])
    );
    assert_eq!(vault.is_authorized(&other), true);
    assert_eq!(vault.authorize_property(&actor(admin()), other), Err(VaultError::AlreadyAuthorized));

    // A request in the name of a property that is not on the list is refused.
    assert_eq!(
        vault.request_liquidation(&actor(Address::contract(0, 52)), user(1), 1, 1_000, NOW),
        Err(VaultError::PropertyNotAuthorized)
    );
}

#[test]
fn buffer_threshold_truncates() {
    assert_eq!(compute_buffer_threshold(1_000_000, 15), Some(150_000));
    assert_eq!(compute_buffer_threshold(999, 15), Some(149));
    assert_eq!(compute_buffer_threshold(6, 15), Some(0));
    assert_eq!(compute_buffer_threshold(7, 15), Some(1));
    assert_eq!(compute_buffer_threshold(0, 25), Some(0));
    assert_eq!(compute_buffer_threshold(-7, 15), Some(-1));
    assert_eq!(compute_buffer_threshold(i128::MAX, 10), None);
    assert_eq!(compute_buffer_threshold(i128::MAX / 10, 10), Some(i128::MAX / 10 * 10 / 100));
    assert_eq!(compute_buffer_threshold(i128::MAX, 0), Some(0));
}

#[test]
fn admission_boundary() {
    // Capacity 1,000,000 at 15 percent: the threshold is 150,000.
    let mut vault = funded(1_000_000);
    let available = vault.available_liquidity().unwrap();
    assert_eq!(available, 1_000_000);

    // One unit more than `available - 150,000` queues.
    let mut above = funded(1_000_000);
    assert_eq!(
        request(&mut above, user(1), available - 150_000 + 1),
        Ok(vec![
            VaultEvent::ControlledModeActivated(NOW),
            VaultEvent::LiquidationQueued(0, property(), user(1), 850_001),
        ])
    );
    assert_eq!(above.available_liquidity(), Ok(1_000_000));
    assert_eq!(above.get_config().unwrap().controlled_mode, true);

    // Exactly `available - 150,000` is paid at once.
    assert_eq!(
        request(&mut vault, user(1), available - 150_000),
        Ok(vec![VaultEvent::LiquidationExecuted(property(), user(1), 850_000)])
    );
    assert_eq!(vault.available_liquidity(), Ok(150_000));
    assert_eq!(vault.total_capacity(), Ok(1_000_000));
    assert_eq!(vault.get_config().unwrap().controlled_mode, false);

    // The same boundary from another level of liquidity.
    let mut vault = funded(1_000_000);
    request(&mut vault, user(2), 300_000).unwrap();
    let available = vault.available_liquidity().unwrap();
    assert_eq!(available, 700_000);
    let mut above = funded(1_000_000);
    request(&mut above, user(2), 300_000).unwrap();
    assert_eq!(paid(&request(&mut above, user(3), available - 150_000 + 1).unwrap()), vec![]);
    assert_eq!(
        paid(&request(&mut vault, user(3), available - 150_000).unwrap()),
        vec![(user(3), 550_000)]
    );
}

#[test]
fn instant_payouts_never_go_below_the_buffer() {
    let mut vault = funded(1_000_000);
    let mut instant = 0;
    for (n, amount) in [400_000i128, 300_000, 100_000, 50_000, 1, 60_000, 49_999, 2].iter().enumerate() {
        let events = request(&mut vault, user(n as u128), *amount).unwrap();
        let config = vault.get_config().unwrap();
        if !paid(&events).is_empty() {
            instant += 1;
            assert!(config.available >= config.total_capacity * config.buffer_percentage as i128 / 100);
        }
    }
    // 400,000 + 300,000 + 100,000 + 50,000 leave exactly the buffer; every later
    // request queues, and once one is queued all are.
    assert_eq!(instant, 4);
    assert_eq!(vault.available_liquidity(), Ok(150_000));
    assert_eq!(vault.get_queue_status(NOW).unwrap().total_queued, 4);
}

#[test]
fn a_request_is_refused_for_a_bad_amount_or_an_empty_vault_balance() {
    let mut vault = funded(1_000);
    assert_eq!(request(&mut vault, user(1), 0), Err(VaultError::InvalidAmount));
    assert_eq!(request(&mut vault, user(1), -1), Err(VaultError::InvalidAmount));
    assert_eq!(request(&mut vault, user(1), i128::MAX), Err(VaultError::Overflow));
    // The ledger says the vault holds less than it is to pay.
    assert_eq!(
        vault.request_liquidation(&actor(property()), user(1), 100, 99, NOW),
        Err(VaultError::InsufficientVaultBalance)
    );
    assert_eq!(vault.available_liquidity(), Ok(1_000));
    assert_eq!(vault.get_queue_status(NOW).unwrap().total_queued, 0);
    // On the queue path the balance is not looked at.
    assert_eq!(
        paid(&vault.request_liquidation(&actor(property()), user(1), 900, 0, NOW).unwrap()),
        vec![]
    );
    assert_eq!(vault.get_queue_status(NOW).unwrap().total_queued, 1);
}

#[test]
fn stats_follow_every_payment() {
    let mut vault = funded(1_000_000);
    vault.request_liquidation(&actor(property()), user(1), 100, 1_000_000, 50).unwrap();
    vault.request_liquidation(&actor(property()), user(2), 200, 1_000_000, 70).unwrap();
    assert_eq!(
        vault.get_property_stats(&property()),
        Some(PropertyVaultStats {
            property_contract: property(),
            total_liquidated: 300,
            last_liquidation: 70,
            active_users: 0,
            cash_flow_monthly: 0,
        })
    );
    let record = vault.get_property_stats(&property()).unwrap();
    assert_eq!(credit_stats(&record, 5, 80).unwrap().total_liquidated, 305);
    assert_eq!(credit_stats(&record, 5, 80).unwrap().last_liquidation, 80);
    assert_eq!(credit_stats(&record, i128::MAX, 80), None);
}

#[test]
fn head_of_line_blocking() {
    // Capacity 1,000,000: 880,000 are paid out, 120,000 stay, under the buffer.
    let mut vault = funded(1_000_000);
    request(&mut vault, user(0), 850_000).unwrap();
    let r1 = user(1);
    let r2 = user(2);
    // R1 is large, R2 is small; both wait.
    assert_eq!(paid(&request(&mut vault, r1, 500_000).unwrap()), vec![]);
    assert_eq!(paid(&request(&mut vault, r2, 10_000).unwrap()), vec![]);
    assert_eq!(vault.get_config().unwrap().controlled_mode, true);

    // 100,000 more: capacity 1,100,000, threshold 165,000, available 250,000.
    // R2 would fit (175,000), R1 does not (665,000): neither is paid.
    let events = vault.fund_vault(&actor(admin()), 100_000, 100_000, 150_000, 250_000, NOW).unwrap();
    assert_eq!(events, vec![VaultEvent::Funded(admin(), 100_000, 1_100_000)]);
    assert_eq!(paid(&events), vec![]);
    let status = vault.get_queue_status(NOW).unwrap();
    assert_eq!((status.head_index, status.tail_index, status.total_queued), (0, 2, 2));
    assert_eq!(status.total_amount, 510_000);
    assert_eq!(vault.available_liquidity(), Ok(250_000));
    assert_eq!(vault.get_config().unwrap().controlled_mode, true);

    // While one request waits, a request that would fit queues behind it.
    let r3 = user(3);
    assert_eq!(
        request(&mut vault, r3, 1),
        Ok(vec![VaultEvent::LiquidationQueued(2, property(), r3, 1)])
    );

    // Enough for R1: everything is paid, in order.
    let events = vault.fund_vault(&actor(admin()), 600_000, 600_000, 250_000, 850_000, NOW).unwrap();
    assert_eq!(
        events,
        vec![
            VaultEvent::LiquidationExecuted(property(), r1, 500_000),
            VaultEvent::LiquidationExecuted(property(), r2, 10_000),
            VaultEvent::LiquidationExecuted(property(), r3, 1),
            VaultEvent::ControlledModeDeactivated(NOW),
            VaultEvent::Funded(admin(), 600_000, 1_700_000),
        ]
    );
    let status = vault.get_queue_status(NOW).unwrap();
    assert_eq!((status.head_index, status.tail_index, status.total_queued), (3, 3, 0));
    assert_eq!(vault.available_liquidity(), Ok(850_000 - 510_001));
}

#[test]
fn a_drain_pays_a_prefix_and_stops() {
    let mut vault = funded(1_000);
    request(&mut vault, user(0), 850).unwrap();
    for (n, amount) in [100i128, 200, 5_000, 1].iter().enumerate() {
        assert_eq!(paid(&request(&mut vault, user(10 + n as u128), *amount).unwrap()), vec![]);
    }
    // Capacity 2,000, threshold 300, available 1,150: 100 and 200 go, 5,000 blocks.
    let events = vault.fund_vault(&actor(admin()), 1_000, 1_000, 150, 1_150, 99).unwrap();
    assert_eq!(
        events,
        vec![
            VaultEvent::LiquidationExecuted(property(), user(10), 100),
            VaultEvent::LiquidationExecuted(property(), user(11), 200),
            VaultEvent::Funded(admin(), 1_000, 2_000),
        ]
    );
    let status = vault.get_queue_status(NOW).unwrap();
    assert_eq!((status.head_index, status.tail_index, status.total_queued), (2, 4, 2));
    assert_eq!(status.total_amount, 5_001);
    assert_eq!(status.controlled_mode, true);
    assert_eq!(vault.available_liquidity(), Ok(850));
    let stats = vault.get_property_stats(&property()).unwrap();
    assert_eq!((stats.total_liquidated, stats.last_liquidation), (850 + 300, 99));
    // The next request gets the next id.
    assert_eq!(
        request(&mut vault, user(20), 7),
        Ok(vec![VaultEvent::LiquidationQueued(4, property(), user(20), 7)])
    );
}

#[test]
fn a_drain_repeated_without_new_liquidity_does_nothing() {
    let mut vault = funded(1_000);
    request(&mut vault, user(0), 850).unwrap();
    request(&mut vault, user(1), 100).unwrap();
    request(&mut vault, user(2), 5_000).unwrap();
    let events = vault.fund_vault(&actor(admin()), 1_000, 1_000, 150, 1_150, NOW).unwrap();
    assert_eq!(paid(&events), vec![(user(1), 100)]);

    let config = vault.get_config().unwrap();
    let status = vault.get_queue_status(NOW).unwrap();
    let stats = vault.get_property_stats(&property());
    // Pausing and unpausing runs the drain again, three times over.
    for round in 0..3 {
        assert_eq!(
            vault.emergency_pause(&actor(admin()), NOW + round),
            Ok(vec![VaultEvent::EmergencyPaused(admin(), NOW + round)])
        );
        assert_eq!(
            vault.emergency_unpause(&actor(admin()), NOW + round),
            Ok(vec![VaultEvent::EmergencyUnpaused(admin(), NOW + round)])
        );
        assert_eq!(vault.get_config().unwrap(), config);
        assert_eq!(vault.get_queue_status(NOW).unwrap(), status);
        assert_eq!(vault.get_property_stats(&property()), stats);
    }
}

#[test]
fn unpausing_drains_what_became_payable() {
    let mut vault = funded(1_000);
    request(&mut vault, user(0), 850).unwrap();
    request(&mut vault, user(1), 100).unwrap();
    // A lower buffer makes the request fit, but nothing drains until a deposit or an unpause.
    vault.update_buffer_percentage(&actor(admin()), 10).unwrap();
    vault.fund_vault(&actor(admin()), 1, 1, 150, 151, NOW).unwrap();
    assert_eq!(vault.get_config().unwrap().controlled_mode, true);
    // 151 < 100 + 100 (10 percent of 1,001 is 100): still blocked. Add 49.
    vault.emergency_pause(&actor(admin()), NOW).unwrap();
    assert_eq!(request(&mut vault, user(2), 1), Err(VaultError::EmergencyPaused));
    assert_eq!(vault.emergency_pause(&actor(admin()), NOW), Err(VaultError::AlreadyPaused));
    assert_eq!(vault.emergency_unpause(&actor(user(5)), NOW), Err(VaultError::NotAdmin));
    assert_eq!(vault.emergency_unpause(&actor(admin()), NOW), Ok(vec![VaultEvent::EmergencyUnpaused(admin(), NOW)]));
    assert_eq!(vault.emergency_unpause(&actor(admin()), NOW), Err(VaultError::NotPaused));
    assert_eq!(vault.emergency_pause(&actor(user(5)), NOW), Err(VaultError::NotAdmin));

    vault.fund_vault(&actor(admin()), 60, 60, 151, 211, NOW).unwrap();
    // Capacity 1,061, threshold 106, available 211 >= 206: paid.
    assert_eq!(vault.available_liquidity(), Ok(111));
    assert_eq!(vault.get_config().unwrap().controlled_mode, false);
}

#[test]
fn buffer_percentage_stays_within_ten_and_twenty_five() {
    let mut vault = funded(1_000);
    let a = actor(admin());
    assert_eq!(vault.update_buffer_percentage(&actor(user(1)), 20), Err(VaultError::NotAdmin));
    for bad in [0, 9, 26, 100, u32::MAX] {
        assert_eq!(vault.update_buffer_percentage(&a, bad), Err(VaultError::InvalidBufferPercentage));
    }
    assert_eq!(vault.get_config().unwrap().buffer_percentage, 15);
    for good in [10, 25, 17] {
        assert_eq!(vault.update_buffer_percentage(&a, good), Ok(vec![VaultEvent::BufferAdjusted(good)]));
        assert_eq!(vault.get_config().unwrap().buffer_percentage, good);
    }
    // The new percentage counts from the next admission on: 17 percent of 1,000 is 170.
    assert_eq!(paid(&request(&mut vault, user(1), 831).unwrap()), vec![]);
    let mut vault = funded(1_000);
    vault.update_buffer_percentage(&a, 17).unwrap();
    assert_eq!(paid(&request(&mut vault, user(1), 830).unwrap()), vec![(user(1), 830)]);
}

#[test]
fn withdrawal_keeps_buffer_and_queue_covered() {
    let mut vault = funded(1_000);
    let a = actor(admin());
    assert_eq!(vault.withdraw_liquidity(&actor(user(1)), 10, 1_000, 990), Err(VaultError::NotAdmin));
    assert_eq!(vault.withdraw_liquidity(&a, 0, 1_000, 1_000), Err(VaultError::InvalidAmount));
    assert_eq!(vault.withdraw_liquidity(&a, -1, 1_000, 1_001), Err(VaultError::InvalidAmount));
    // The buffer is taken of the capacity before the withdrawal: 150 must stay.
    assert_eq!(vault.withdraw_liquidity(&a, 851, 1_000, 149), Err(VaultError::BufferViolation));
    assert_eq!(vault.check_withdrawal(&a, 851, 1_000), Err(VaultError::BufferViolation));
    assert_eq!(vault.check_withdrawal(&a, 850, 1_000), Ok(()));
    assert_eq!(vault.check_withdrawal(&a, 850, 849), Err(VaultError::InsufficientVaultBalance));
    assert_eq!(vault.withdraw_liquidity(&a, 850, 1_000, 151), Err(VaultError::WithdrawalVerificationFailed));
    assert_eq!(vault.withdraw_liquidity(&a, 850, 1_000, 1_000), Err(VaultError::WithdrawalVerificationFailed));
    assert_eq!(vault.withdraw_liquidity(&a, i128::MIN + 5, 0, 0), Err(VaultError::InvalidAmount));
    assert_eq!(vault.total_capacity(), Ok(1_000));

    assert_eq!(
        vault.withdraw_liquidity(&a, 850, 1_000, 150),
        Ok(vec![VaultEvent::LiquidityWithdrawn(admin(), 850, 150)])
    );
    // Both the capacity and the available liquidity shrink.
    assert_eq!(vault.total_capacity(), Ok(150));
    assert_eq!(vault.available_liquidity(), Ok(150));

    // Queued requests count on top of the buffer.
    let mut vault = funded(1_000);
    request(&mut vault, user(0), 500).unwrap();
    assert_eq!(paid(&request(&mut vault, user(1), 400).unwrap()), vec![]);
    assert_eq!(vault.calculate_queue_obligations(), Ok(400));
    // Available 500, buffer 150, obligations 400: nothing can leave.
    assert_eq!(vault.withdraw_liquidity(&a, 1, 500, 499), Err(VaultError::BufferViolation));
    let events = vault.fund_vault(&a, 100, 100, 500, 600, NOW).unwrap();
    // Capacity 1,100, threshold 165, available 600 >= 565: the request is paid.
    assert_eq!(paid(&events), vec![(user(1), 400)]);
    assert_eq!(vault.calculate_queue_obligations(), Ok(0));
    assert_eq!(vault.withdraw_liquidity(&a, 36, 200, 164), Err(VaultError::BufferViolation));
    assert!(vault.withdraw_liquidity(&a, 35, 200, 165).is_ok());

    vault.emergency_pause(&a, NOW).unwrap();
    assert_eq!(vault.withdraw_liquidity(&a, 1, 165, 164), Err(VaultError::EmergencyPaused));
}

#[test]
fn estimates_are_ninety_days_without_cash_flow() {
    let mut vault = funded(1_000);
    assert_eq!(vault.calculate_expected_cash_flow(), 0);
    assert_eq!(vault.estimate_fulfillment(5_000, NOW), NOW + NINETY_DAYS);
    assert_eq!(vault.estimate_fulfillment(5_000, u64::MAX - NINETY_DAYS), u64::MAX);
    // Past the end of time the estimate is 0.
    assert_eq!(vault.estimate_fulfillment(5_000, u64::MAX - NINETY_DAYS + 1), 0);

    request(&mut vault, user(0), 900).unwrap();
    let status = vault.get_queue_status(NOW + 5).unwrap();
    assert_eq!(status.total_queued, 1);
    assert_eq!(status.total_amount, 900);
    // With nothing expected the queue's clear time is the present.
    assert_eq!(status.estimated_clear_time, NOW + 5);
}

#[test]
fn accumulation_counts_whole_months_up_to_twelve() {
    const MONTH: u64 = 2_592_000;
    assert_eq!(seconds_to_accumulate(0, 100), 0);
    assert_eq!(seconds_to_accumulate(99, 100), 0);
    assert_eq!(seconds_to_accumulate(100, 100), MONTH);
    assert_eq!(seconds_to_accumulate(350, 100), 3 * MONTH);
    assert_eq!(seconds_to_accumulate(1_200, 100), 12 * MONTH);
    assert_eq!(seconds_to_accumulate(1_300, 100), 12 * MONTH);
    assert_eq!(seconds_to_accumulate(i128::MAX, 1), 12 * MONTH);
    // A negative amount gives negative months, which wrap as an unsigned number.
    assert_eq!(seconds_to_accumulate(-100, 100), (-(MONTH as i128)) as u64);
    assert_eq!(seconds_to_accumulate(-99, 100), 0);
    // When even the product overflows, one month is taken.
    assert_eq!(seconds_to_accumulate(i128::MIN, 1), MONTH);
}

#[test]
fn a_request_keeps_what_it_was_queued_with() {
    let mut vault = funded(1_000);
    request(&mut vault, user(0), 900).unwrap();
    let requests = vault.queued_requests();
    assert_eq!(
        requests,
        vec![LiquidationRequest {
            request_id: 0,
            property: property(),
            user: user(0),
            amount: 900,
            timestamp: NOW,
            estimated_fulfill_date: NOW + NINETY_DAYS,
        }]
    );
}
