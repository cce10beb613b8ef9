//! A property on its own: initialisation, rates, views, yield arithmetic and
//! the rollover and liquidation gates.

use verse_contracts::property::contract::{
    epoch_is_complete, epoch_yield, grace_is_over, loyalty_tier_for, monthly_yield, roll_over,
    yield_components,
};
use verse_contracts::{
    Address, AuthenticatedActor, PropertyContract, PropertyError, PropertyEvent, RoiConfig,
    UserPosition,
};

const DAY: u64 = 86_400;
const EPOCH: u64 = 2_592_000;

fn actor(address: Address) -> AuthenticatedActor {
    AuthenticatedActor::new(address)
}

fn setup_test_env() -> (Address, Address, Address, Address, Address) {
    let admin = Address::account(0, 1);
    let user = Address::account(0, 2);
    let vault_address = Address::contract(0, 3);
    let kyc_address = Address::contract(0, 4);
    let usdc_address = Address::contract(0, 5);
    (admin, user, vault_address, kyc_address, usdc_address)
}

fn setup_property_contract(admin: &Address, vault: &Address, kyc: &Address, usdc: &Address) -> PropertyContract {
    let mut property = PropertyContract::new(Address::contract(0, 6));
    property
        .initialize(
            &actor(*admin),
            b"Test Property".to_vec(),
            b"TPROP".to_vec(),
            7,
            1_000_000_0000000,
            100_0000000,
            *vault,
            *kyc,
            *usdc,
        )
        .unwrap();
    property
}

fn position(principal: i128, compounding: bool, rollovers: u32) -> UserPosition {
    UserPosition {
        tokens: 100,
        initial_investment: principal,
        current_principal: principal,
        compounding_enabled: compounding,
        epoch_start: 0,
        consecutive_rollovers: rollovers,
        total_yield_earned: 0,
        loyalty_tier: if rollovers > 4 { 4 } else { rollovers },
    }
}

fn default_roi() -> RoiConfig {
    RoiConfig { annual_rate_bps: 800, compounding_bonus_bps: 200, loyalty_bonus_bps: 25, cash_flow_monthly: 0 }
}

#[test]
fn test_initialize() {
    let (admin, _, vault, kyc, usdc) = setup_test_env();

    let property = setup_property_contract(&admin, &vault, &kyc, &usdc);

    let metadata = property.get_metadata().unwrap();
    assert_eq!(metadata.name, b"Test Property".to_vec());
    assert_eq!(metadata.symbol, b"TPROP".to_vec());
    assert_eq!(metadata.decimals, 7);
    assert_eq!(metadata.total_supply, 1_000_000_0000000);
    assert_eq!(metadata.token_price, 100_0000000);
    assert_eq!(metadata.vault_address, vault);
    assert_eq!(metadata.kyc_address, kyc);
    assert_eq!(metadata.stablecoin_address, usdc);

    assert_eq!(property.get_admin(), Ok(admin));

    assert_eq!(property.total_active_tokens(), 0);
    assert_eq!(property.get_roi_config(), Ok(default_roi()));
}

#[test]
fn property_initialize_validates_and_runs_once() {
    let (admin, _, vault, kyc, usdc) = setup_test_env();
    let init = |p: &mut PropertyContract, decimals: u32, supply: i128, price: i128| {
        p.initialize(
            &actor(admin),
            b"Test Property".to_vec(),
            b"TPROP".to_vec(),
            decimals,
            supply,
            price,
            vault,
            kyc,
            usdc,
        )
    };
    let mut property = PropertyContract::new(Address::contract(0, 6));
    assert!(matches!(property.get_metadata(), Err(PropertyError::NotInitialized)));
    assert_eq!(property.get_admin(), Err(PropertyError::NotInitialized));
    assert_eq!(property.get_roi_config(), Err(PropertyError::NotInitialized));

    assert_eq!(init(&mut property, 7, 0, 1), Err(PropertyError::InvalidTotalSupply));
    assert_eq!(init(&mut property, 7, -1, 1), Err(PropertyError::InvalidTotalSupply));
    assert_eq!(init(&mut property, 8, 1, 1), Err(PropertyError::InvalidDecimals));
    assert_eq!(init(&mut property, 7, 1, 0), Err(PropertyError::InvalidTokenPrice));
    // The supply is looked at before the decimals, the decimals before the price.
    assert_eq!(init(&mut property, 8, 0, 0), Err(PropertyError::InvalidTotalSupply));
    assert_eq!(init(&mut property, 8, 1, 0), Err(PropertyError::InvalidDecimals));
    assert!(matches!(property.get_metadata(), Err(PropertyError::NotInitialized)));

    assert_eq!(init(&mut property, 7, 1, 1), Ok(PropertyEvent::Initialized(admin)));
    assert_eq!(init(&mut property, 7, 1, 1), Err(PropertyError::AlreadyInitialized));
    assert_eq!(init(&mut property, 9, 0, 0), Err(PropertyError::AlreadyInitialized));
}

#[test]
fn test_update_roi_config() {
    let (admin, _, vault, kyc, usdc) = setup_test_env();

    let mut property = setup_property_contract(&admin, &vault, &kyc, &usdc);

    assert_eq!(
        property.update_roi_config(&actor(admin), 1000, 300, 25, 50_000_0000000),
        Ok(PropertyEvent::RoiConfigUpdated(admin, 1000, 300, 25))
    );

    let roi_config = property.get_roi_config().unwrap();
    assert_eq!(roi_config.annual_rate_bps, 1000);
    assert_eq!(roi_config.compounding_bonus_bps, 300);
    assert_eq!(roi_config.loyalty_bonus_bps, 25);
    assert_eq!(roi_config.cash_flow_monthly, 50_000_0000000);
}

#[test]
fn update_roi_config_is_gated() {
    let (admin, user, vault, kyc, usdc) = setup_test_env();
    let mut fresh = PropertyContract::new(Address::contract(0, 6));
    assert_eq!(fresh.update_roi_config(&actor(admin), 1000, 300, 25, 0), Err(PropertyError::NotInitialized));

    let mut property = setup_property_contract(&admin, &vault, &kyc, &usdc);
    assert_eq!(property.update_roi_config(&actor(user), 1000, 300, 25, 0), Err(PropertyError::NotAdmin));
    assert_eq!(property.update_roi_config(&actor(admin), 0, 300, 25, 0), Err(PropertyError::InvalidAnnualRate));
    assert_eq!(property.update_roi_config(&actor(admin), 2001, 300, 25, 0), Err(PropertyError::InvalidAnnualRate));
    assert_eq!(property.get_roi_config(), Ok(default_roi()));
    assert!(property.update_roi_config(&actor(admin), 1, 0, 0, -5).is_ok());
    assert!(property.update_roi_config(&actor(admin), 2000, u32::MAX, u32::MAX, 0).is_ok());
}

#[test]
fn test_can_take_action() {
    let (admin, user, vault, kyc, usdc) = setup_test_env();

    let property = setup_property_contract(&admin, &vault, &kyc, &usdc);

    assert_eq!(property.can_take_action(&user, 0), false);
    assert_eq!(property.can_take_action(&user, u64::MAX), false);
}

#[test]
fn test_is_in_grace_period() {
    let (admin, user, vault, kyc, usdc) = setup_test_env();

    let property = setup_property_contract(&admin, &vault, &kyc, &usdc);

    assert_eq!(property.is_in_grace_period(&user, 0), false);
    assert_eq!(property.is_in_grace_period(&user, EPOCH), false);
}

#[test]
fn test_can_admin_rollover() {
    let (admin, user, vault, kyc, usdc) = setup_test_env();

    let property = setup_property_contract(&admin, &vault, &kyc, &usdc);

    assert_eq!(property.can_admin_rollover(&user, 0), false);
    assert_eq!(property.can_admin_rollover(&user, u64::MAX), false);
}

#[test]
fn test_get_user_position_none() {
    let (admin, user, vault, kyc, usdc) = setup_test_env();

    let property = setup_property_contract(&admin, &vault, &kyc, &usdc);

    assert_eq!(property.get_user_position(&user).is_none(), true);
}

#[test]
fn test_total_active_tokens_initial() {
    let (admin, _, vault, kyc, usdc) = setup_test_env();

    let property = setup_property_contract(&admin, &vault, &kyc, &usdc);

    assert_eq!(property.total_active_tokens(), 0);
}

#[test]
fn yield_truncates_each_rate_and_each_component() {
    // 800 / 12 = 66, 200 / 12 = 16: 10,000 USDC at 7 decimals earns 66 + 16.
    let p = position(10_000_0000000, true, 0);
    assert_eq!(
        PropertyContract::calculate_yield(&p, &default_roi()),
        (66_0000000, 16_0000000, 0)
    );
    assert_eq!(epoch_yield(&p, &default_roi()), Some(82_0000000));

    // Without compounding the bonus is nothing.
    let p = position(10_000_0000000, false, 0);
    assert_eq!(PropertyContract::calculate_yield(&p, &default_roi()), (66_0000000, 0, 0));

    // Tier 1: 1 * 25 / 12 = 2 basis points.
    let p = position(100820000000, true, 1);
    assert_eq!(
        PropertyContract::calculate_yield(&p, &default_roi()),
        (665412000, 161312000, 20164000)
    );
    assert_eq!(epoch_yield(&p, &default_roi()), Some(846888000));

    // Tier 4: 4 * 25 / 12 = 8 basis points.
    let p = position(1_000_000, false, 9);
    assert_eq!(PropertyContract::calculate_yield(&p, &default_roi()), (6600, 0, 800));

    // The quotient is truncated: 149 * 66 / 10000 = 0.98.. gives 0; 152 * 66 = 10032 gives 1.
    assert_eq!(PropertyContract::calculate_yield(&position(149, false, 0), &default_roi()).0, 0);
    assert_eq!(PropertyContract::calculate_yield(&position(152, false, 0), &default_roi()).0, 1);
    // Toward zero for a negative principal too.
    assert_eq!(PropertyContract::calculate_yield(&position(-152, false, 0), &default_roi()).0, -1);
    assert_eq!(PropertyContract::calculate_yield(&position(-149, false, 0), &default_roi()).0, 0);

    // A rate under twelve basis points a year is no rate.
    let tiny = RoiConfig { annual_rate_bps: 11, compounding_bonus_bps: 11, loyalty_bonus_bps: 2, cash_flow_monthly: 0 };
    assert_eq!(PropertyContract::calculate_yield(&position(1_000_000, true, 4), &tiny), (0, 0, 0));
}

#[test]
fn a_yield_that_overflows_is_refused_and_never_made_up() {
    // i128::MAX * 66 does not fit: there are no components and no yield.
    let p = position(i128::MAX, true, 1);
    assert_eq!(yield_components(&p, &default_roi()), None);
    assert_eq!(epoch_yield(&p, &default_roi()), None);
    assert_eq!(monthly_yield(i128::MAX, 66), None);
    assert_eq!(monthly_yield(i128::MAX, 2), None);
    assert_eq!(monthly_yield(i128::MIN, 2), None);
    assert_eq!(monthly_yield(i128::MAX, 1), Some(i128::MAX / 10_000));
    assert_eq!(monthly_yield(i128::MAX, 0), Some(0));
    // The largest principal whose base product fits, and the next one.
    let edge = i128::MAX / 66;
    assert_eq!(monthly_yield(edge, 66), Some(edge * 66 / 10_000));
    assert_eq!(monthly_yield(edge + 1, 66), None);
    // A rate of one does not overflow.
    let one = RoiConfig { annual_rate_bps: 12, compounding_bonus_bps: 0, loyalty_bonus_bps: 0, cash_flow_monthly: 0 };
    assert_eq!(PropertyContract::calculate_yield(&p, &one), (i128::MAX / 10_000, 0, 0));
    // Only the compounding product overflows: still no yield.
    let bonus_only = RoiConfig { annual_rate_bps: 12, compounding_bonus_bps: 24, loyalty_bonus_bps: 0, cash_flow_monthly: 0 };
    assert_eq!(yield_components(&p, &bonus_only), None);
    assert_eq!(yield_components(&position(i128::MAX, false, 1), &bonus_only), Some((i128::MAX / 10_000, 0, 0)));
    // Only the loyalty product overflows.
    let loyalty_only = RoiConfig { annual_rate_bps: 12, compounding_bonus_bps: 0, loyalty_bonus_bps: 24, cash_flow_monthly: 0 };
    assert_eq!(yield_components(&position(i128::MAX, false, 1), &loyalty_only), None);
    assert_eq!(yield_components(&position(i128::MAX, false, 0), &loyalty_only), Some((i128::MAX / 10_000, 0, 0)));
    // The loyalty rate itself must fit in 32 bits.
    let wide = RoiConfig { annual_rate_bps: 800, compounding_bonus_bps: 200, loyalty_bonus_bps: u32::MAX, cash_flow_monthly: 0 };
    assert_eq!(epoch_yield(&position(1000, true, 2), &wide), None);
    assert_eq!(epoch_yield(&position(1000, true, 1), &wide).is_some(), true);
    assert_eq!(epoch_yield(&position(1000, true, 0), &wide), Some(6 + 1));
    // The sum of components that fit may not fit.
    let huge = i128::MAX / 2_000;
    let steep = RoiConfig { annual_rate_bps: 2_000 * 12, compounding_bonus_bps: 2_000 * 12, loyalty_bonus_bps: 0, cash_flow_monthly: 0 };
    assert!(yield_components(&position(huge, true, 0), &steep).is_some());
    assert_eq!(epoch_yield(&position(huge, true, 0), &steep), Some(huge / 5 * 2));
    let steeper = RoiConfig { annual_rate_bps: 2_000 * 12, compounding_bonus_bps: 2_000 * 12, loyalty_bonus_bps: 6_000 * 12, cash_flow_monthly: 0 };
    assert_eq!(yield_components(&position(huge, true, 1), &steeper), None);
}

#[test]
fn an_overflowing_principal_refuses_rollover_liquidation_and_preview() {
    let (admin, user, vault, kyc, usdc) = setup_test_env();
    let mut property = PropertyContract::new(Address::contract(0, 6));
    property
        .initialize(&actor(admin), b"Test Property".to_vec(), b"TPROP".to_vec(), 7, 1, i128::MAX, vault, kyc, usdc)
        .unwrap();
    // One token at the highest price: the principal is i128::MAX.
    assert_eq!(
        property.purchase_tokens(&actor(user), 1, true, true, i128::MAX, 0),
        Ok(PropertyEvent::TokensPurchased(user, 1, i128::MAX, true))
    );
    let before = property.get_user_position(&user);
    assert_eq!(before.unwrap().current_principal, i128::MAX);

    assert_eq!(property.rollover_position(&actor(user), EPOCH), Err(PropertyError::Overflow));
    assert_eq!(property.admin_rollover_position(&actor(admin), user, EPOCH + DAY), Err(PropertyError::Overflow));
    assert_eq!(property.liquidate_position(&actor(user), EPOCH), Err(PropertyError::Overflow));
    assert_eq!(property.preview_yield(&user, EPOCH), Err(PropertyError::Overflow));
    // Nothing was credited and nothing counted.
    assert_eq!(property.get_user_position(&user), before);
    assert_eq!(property.total_active_tokens(), 1);
    // Whether the epoch is complete is looked at first.
    assert_eq!(property.rollover_position(&actor(user), EPOCH - 1), Err(PropertyError::EpochNotComplete));

    // With rates under twelve basis points a year every product is zero and fits.
    property.update_roi_config(&actor(admin), 11, 11, 0, 0).unwrap();
    assert_eq!(
        property.rollover_position(&actor(user), EPOCH),
        Ok(PropertyEvent::PositionRolledOver(user, 1, 0, 1, i128::MAX, false))
    );
}

#[test]
fn roll_over_follows_the_compounding_choice() {
    let compounding = roll_over(&position(1000, true, 0), 82, 777).unwrap();
    assert_eq!(compounding.current_principal, 1082);
    assert_eq!(compounding.total_yield_earned, 82);
    assert_eq!(compounding.epoch_start, 777);
    assert_eq!(compounding.consecutive_rollovers, 1);
    assert_eq!(compounding.loyalty_tier, 1);
    assert_eq!(compounding.tokens, 100);
    assert_eq!(compounding.initial_investment, 1000);

    let plain = roll_over(&position(1000, false, 3), 66, 778).unwrap();
    assert_eq!(plain.current_principal, 1000);
    assert_eq!(plain.total_yield_earned, 66);
    assert_eq!(plain.consecutive_rollovers, 4);
    assert_eq!(plain.loyalty_tier, 4);

    let capped = roll_over(&position(1000, false, 4), 66, 779).unwrap();
    assert_eq!(capped.consecutive_rollovers, 5);
    assert_eq!(capped.loyalty_tier, 4);

    assert_eq!(roll_over(&position(i128::MAX, true, 0), 1, 0), None);
    assert_eq!(roll_over(&position(i128::MAX, false, 0), 1, 0).is_some(), true);
    assert_eq!(roll_over(&position(1, false, u32::MAX), 1, 0), None);

    assert_eq!(
        [0, 1, 2, 3, 4, 5, 6, u32::MAX].map(loyalty_tier_for),
        [0, 1, 2, 3, 4, 4, 4, 4]
    );
}

fn with_position(now: u64, compounding: bool) -> (PropertyContract, Address, Address) {
    let (admin, user, vault, kyc, usdc) = setup_test_env();
    let mut property = setup_property_contract(&admin, &vault, &kyc, &usdc);
    assert_eq!(
        property.purchase_tokens(&actor(user), 100, compounding, true, 100 * 100_0000000, now),
        Ok(PropertyEvent::TokensPurchased(user, 100, 10_000_0000000, compounding))
    );
    (property, admin, user)
}

#[test]
fn purchase_opens_one_position_per_user() {
    let (admin, user, vault, kyc, usdc) = setup_test_env();
    let mut fresh = PropertyContract::new(Address::contract(0, 6));
    assert_eq!(fresh.purchase_tokens(&actor(user), 1, true, true, 1, 0), Err(PropertyError::NotInitialized));

    let mut property = setup_property_contract(&admin, &vault, &kyc, &usdc);
    assert_eq!(property.purchase_tokens(&actor(user), 0, true, true, 0, 5), Err(PropertyError::InvalidAmount));
    assert_eq!(property.purchase_tokens(&actor(user), -1, true, true, 0, 5), Err(PropertyError::InvalidAmount));
    assert_eq!(property.purchase_tokens(&actor(user), 1, true, false, 100_0000000, 5), Err(PropertyError::NotCompliant));
    assert_eq!(property.purchase_tokens(&actor(user), i128::MAX, true, true, i128::MAX, 5), Err(PropertyError::Overflow));
    assert_eq!(
        property.purchase_tokens(&actor(user), 3, true, true, 3 * 100_0000000 - 1, 5),
        Err(PropertyError::InsufficientBalance)
    );
    assert_eq!(property.get_user_position(&user), None);
    assert_eq!(property.total_active_tokens(), 0);
    // What can be said before the oracle is asked.
    assert_eq!(fresh.check_purchase(&actor(user), 1), Err(PropertyError::NotInitialized));
    assert_eq!(property.check_purchase(&actor(user), 0), Err(PropertyError::InvalidAmount));
    assert_eq!(property.check_purchase(&actor(user), 1), Ok(()));

    assert_eq!(
        property.purchase_tokens(&actor(user), 3, false, true, 3 * 100_0000000, 5),
        Ok(PropertyEvent::TokensPurchased(user, 3, 3 * 100_0000000, false))
    );
    assert_eq!(
        property.get_user_position(&user),
        Some(UserPosition {
            tokens: 3,
            initial_investment: 3 * 100_0000000,
            current_principal: 3 * 100_0000000,
            compounding_enabled: false,
            epoch_start: 5,
            consecutive_rollovers: 0,
            total_yield_earned: 0,
            loyalty_tier: 0,
        })
    );
    assert_eq!(property.total_active_tokens(), 3);
    // A second position for the same user is refused before anything else is looked at.
    assert_eq!(property.purchase_tokens(&actor(user), 0, true, false, 0, 6), Err(PropertyError::PositionExists));
    assert_eq!(property.check_purchase(&actor(user), 1), Err(PropertyError::PositionExists));

    let other = Address::account(0, 77);
    property.purchase_tokens(&actor(other), 4, true, true, i128::MAX, 6).unwrap();
    assert_eq!(property.total_active_tokens(), 7);
}

#[test]
fn the_three_phases_of_an_epoch() {
    let start = 1_000;
    let (property, _, user) = with_position(start, true);

    for now in [0, start, start + EPOCH - 1] {
        assert_eq!(property.can_take_action(&user, now), false);
        assert_eq!(property.is_in_grace_period(&user, now), false);
        assert_eq!(property.can_admin_rollover(&user, now), false);
    }
    for now in [start + EPOCH, start + EPOCH + DAY - 1] {
        assert_eq!(property.can_take_action(&user, now), true);
        assert_eq!(property.is_in_grace_period(&user, now), true);
        assert_eq!(property.can_admin_rollover(&user, now), false);
    }
    for now in [start + EPOCH + DAY, u64::MAX] {
        assert_eq!(property.can_take_action(&user, now), true);
        assert_eq!(property.is_in_grace_period(&user, now), false);
        assert_eq!(property.can_admin_rollover(&user, now), true);
    }
}

#[test]
fn an_epoch_that_cannot_end_is_never_complete() {
    let start = u64::MAX - 10;
    let (mut property, admin, user) = with_position(start, true);
    // The end of the epoch does not fit in 64 bits: nobody may ever act.
    for now in [0, DAY - 1, DAY, EPOCH, start, u64::MAX] {
        assert_eq!(property.can_take_action(&user, now), false);
        assert_eq!(property.is_in_grace_period(&user, now), false);
        assert_eq!(property.can_admin_rollover(&user, now), false);
    }
    assert_eq!(property.rollover_position(&actor(user), u64::MAX), Err(PropertyError::Overflow));
    assert_eq!(property.liquidate_position(&actor(user), u64::MAX), Err(PropertyError::Overflow));
    assert_eq!(property.admin_rollover_position(&actor(admin), user, u64::MAX), Err(PropertyError::Overflow));

    // The epoch ends in time but its grace period does not: the user may act
    // from the end of the epoch on, the admin never.
    let start = u64::MAX - EPOCH - 10;
    let (mut property, admin, user) = with_position(start, true);
    assert_eq!(property.can_take_action(&user, u64::MAX - 11), false);
    for now in [u64::MAX - 10, u64::MAX] {
        assert_eq!(property.can_take_action(&user, now), true);
        assert_eq!(property.is_in_grace_period(&user, now), true);
        assert_eq!(property.can_admin_rollover(&user, now), false);
    }
    assert_eq!(property.admin_rollover_position(&actor(admin), user, u64::MAX), Err(PropertyError::Overflow));
    assert!(property.rollover_position(&actor(user), u64::MAX - 10).is_ok());

    assert_eq!(epoch_is_complete(5, 5 + EPOCH), true);
    assert_eq!(epoch_is_complete(5, 4 + EPOCH), false);
    assert_eq!(epoch_is_complete(u64::MAX - EPOCH, u64::MAX), true);
    assert_eq!(epoch_is_complete(u64::MAX - EPOCH + 1, u64::MAX), false);
    assert_eq!(grace_is_over(5, 5 + EPOCH + DAY), true);
    assert_eq!(grace_is_over(5, 4 + EPOCH + DAY), false);
    assert_eq!(grace_is_over(u64::MAX - EPOCH - DAY, u64::MAX), true);
    assert_eq!(grace_is_over(u64::MAX - EPOCH - DAY + 1, u64::MAX), false);
    assert_eq!(grace_is_over(u64::MAX - EPOCH + 1, u64::MAX), false);
}

#[test]
fn rollover_gates() {
    let start = 1_000;
    let (mut property, admin, user) = with_position(start, false);
    let stranger = Address::account(0, 99);

    assert_eq!(property.rollover_position(&actor(stranger), start + EPOCH), Err(PropertyError::NoPosition));
    assert_eq!(property.liquidate_position(&actor(stranger), start + EPOCH), Err(PropertyError::NoPosition));
    assert_eq!(
        property.admin_rollover_position(&actor(admin), stranger, start + EPOCH + DAY),
        Err(PropertyError::NoPosition)
    );
    assert_eq!(
        property.admin_rollover_position(&actor(user), user, start + EPOCH + DAY),
        Err(PropertyError::NotAdmin)
    );

    assert_eq!(property.rollover_position(&actor(user), start + EPOCH - 1), Err(PropertyError::EpochNotComplete));
    assert_eq!(property.liquidate_position(&actor(user), start + EPOCH - 1), Err(PropertyError::EpochNotComplete));
    assert_eq!(
        property.admin_rollover_position(&actor(admin), user, start + EPOCH + DAY - 1),
        Err(PropertyError::GracePeriodNotPassed)
    );
    assert_eq!(
        property.admin_rollover_position(&actor(admin), user, start + EPOCH),
        Err(PropertyError::GracePeriodNotPassed)
    );
    // Nothing has changed.
    assert_eq!(property.get_user_position(&user).unwrap().consecutive_rollovers, 0);

    // Without compounding the principal stays and the yield is tracked.
    assert_eq!(
        property.rollover_position(&actor(user), start + EPOCH),
        Ok(PropertyEvent::PositionRolledOver(user, 1, 66_0000000, 1, 10_000_0000000, false))
    );
    let p = property.get_user_position(&user).unwrap();
    assert_eq!(p.current_principal, 10_000_0000000);
    assert_eq!(p.total_yield_earned, 66_0000000);
    assert_eq!(p.epoch_start, start + EPOCH);

    // The new epoch has its own gate.
    assert_eq!(property.rollover_position(&actor(user), start + EPOCH + 1), Err(PropertyError::EpochNotComplete));
    assert_eq!(
        property.admin_rollover_position(&actor(admin), user, start + 2 * EPOCH + DAY),
        Ok(PropertyEvent::PositionRolledOver(user, 2, 66_0000000 + 2_0000000, 2, 10_000_0000000, true))
    );
    assert_eq!(property.get_user_position(&user).unwrap().total_yield_earned, 66_0000000 + 68_0000000);
}

#[test]
fn rollover_refuses_a_loyalty_rate_that_overflows() {
    let (mut property, admin, user) = with_position(0, true);
    property.update_roi_config(&actor(admin), 800, 200, u32::MAX, 0).unwrap();
    // Tier 0: 0 * MAX fits.
    assert!(property.rollover_position(&actor(user), EPOCH).is_ok());
    // Tier 1: 1 * MAX fits.
    assert!(property.rollover_position(&actor(user), 2 * EPOCH).is_ok());
    // Tier 2: 2 * MAX does not fit in 32 bits.
    let before = property.get_user_position(&user);
    assert_eq!(property.rollover_position(&actor(user), 3 * EPOCH), Err(PropertyError::Overflow));
    assert_eq!(property.preview_yield(&user, 3 * EPOCH), Err(PropertyError::Overflow));
    assert_eq!(property.liquidate_position(&actor(user), 3 * EPOCH), Err(PropertyError::Overflow));
    assert_eq!(property.admin_rollover_position(&actor(admin), user, 4 * EPOCH), Err(PropertyError::Overflow));
    assert_eq!(property.get_user_position(&user), before);
}

#[test]
fn liquidation_pays_principal_and_one_more_yield() {
    let (mut property, _, user) = with_position(0, true);
    assert_eq!(property.total_active_tokens(), 100);
    assert_eq!(
        property.liquidate_position(&actor(user), EPOCH),
        Ok(PropertyEvent::PositionLiquidated(user, 10_000_0000000, 82_0000000, 10_082_0000000, 0))
    );
    assert_eq!(property.get_user_position(&user), None);
    assert_eq!(property.total_active_tokens(), 0);
    assert_eq!(property.liquidate_position(&actor(user), EPOCH), Err(PropertyError::NoPosition));
    // The user may buy again.
    assert!(property.purchase_tokens(&actor(user), 1, true, true, 100_0000000, EPOCH).is_ok());
}

#[test]
fn preview_counts_whole_days() {
    let start = 10 * DAY;
    let (property, _, user) = with_position(start, true);
    assert_eq!(property.preview_yield(&Address::account(9, 9), start), Err(PropertyError::NoPosition));

    let at = |now: u64| {
        let p = property.preview_yield(&user, now).unwrap();
        assert_eq!(p.base_yield, 66_0000000);
        assert_eq!(p.compounding_bonus, 16_0000000);
        assert_eq!(p.loyalty_bonus, 0);
        assert_eq!(p.total_yield, 82_0000000);
        (p.days_elapsed, p.days_remaining)
    };
    // Before the epoch began nothing has elapsed.
    assert_eq!(at(0), (0, 30));
    assert_eq!(at(start), (0, 30));
    assert_eq!(at(start + DAY - 1), (0, 30));
    assert_eq!(at(start + DAY), (1, 29));
    assert_eq!(at(start + 29 * DAY + DAY - 1), (29, 1));
    assert_eq!(at(start + 30 * DAY), (30, 0));
    assert_eq!(at(start + 45 * DAY), (45, 0));
    // The day count is kept in 32 bits: 2^32 days wrap to 0.
    assert_eq!(at(start + (1u64 << 32) * DAY), (0, 30));
    assert_eq!(at(start + ((1u64 << 32) + 31) * DAY), (31, 0));
}
