//! Scenarios in which property contracts settle liquidations through the
//! shared vault. A small in-memory ledger plays the stablecoin.

use std::collections::HashMap;
use verse_contracts::{
    Address, AuthenticatedActor, PropertyVaultStats, QueueStatus, VaultConfig, VaultContract,
    VaultError, VaultEvent,
};

struct Ledger {
    balances: HashMap<Address, i128>,
}

impl Ledger {
    fn new() -> Ledger {
        Ledger { balances: HashMap::new() }
    }

    fn balance(&self, who: &Address) -> i128 {
        *self.balances.get(who).unwrap_or(&0)
    }

    fn mint(&mut self, to: &Address, amount: i128) {
        let held = self.balance(to);
        self.balances.insert(*to, held + amount);
    }

    fn transfer(&mut self, from: &Address, to: &Address, amount: i128) {
        assert!(amount >= 0);
        let held = self.balance(from);
        assert!(held >= amount, "balance is not sufficient to spend");
        self.balances.insert(*from, held - amount);
        let held = self.balance(to);
        self.balances.insert(*to, held + amount);
    }
}

struct Ecosystem {
    ledger: Ledger,
    vault: VaultContract,
    vault_address: Address,
    admin: Address,
    now: u64,
    next_key: u128,
}

impl Ecosystem {
    fn generate(&mut self) -> Address {
        self.next_key += 1;
        Address::account(0, self.next_key)
    }

    fn settle(&mut self, events: &Vec<VaultEvent>) {
        for event in events {
            if let VaultEvent::LiquidationExecuted(_, user, amount) = event {
                let vault_address = self.vault_address;
                self.ledger.transfer(&vault_address, user, *amount);
            }
        }
    }

    fn fund_vault(&mut self, amount: i128) -> Vec<VaultEvent> {
        let admin = AuthenticatedActor::new(self.admin);
        let admin_balance = self.ledger.balance(&self.admin);
        let before = self.ledger.balance(&self.vault_address);
        self.vault.check_funding(&admin, amount, admin_balance).unwrap();
        let (from, to) = (self.admin, self.vault_address);
        self.ledger.transfer(&from, &to, amount);
        let after = self.ledger.balance(&self.vault_address);
        let events =
            self.vault.fund_vault(&admin, amount, admin_balance, before, after, self.now).unwrap();
        self.settle(&events);
        events
    }

    fn authorize_property(&mut self, property: &Address) {
        let admin = AuthenticatedActor::new(self.admin);
        self.vault.authorize_property(&admin, *property).unwrap();
    }

    fn request_liquidation(&mut self, property: &Address, user: &Address, amount: i128) -> Vec<VaultEvent> {
        let held = self.ledger.balance(&self.vault_address);
        let events = self
            .vault
            .request_liquidation(&AuthenticatedActor::new(*property), *user, amount, held, self.now)
            .unwrap();
        self.settle(&events);
        events
    }

    fn get_config(&self) -> VaultConfig {
        self.vault.get_config().unwrap()
    }

    fn get_queue_status(&self) -> QueueStatus {
        self.vault.get_queue_status(self.now).unwrap()
    }

    fn get_property_stats(&self, property: &Address) -> Option<PropertyVaultStats> {
        self.vault.get_property_stats(property)
    }
}

fn setup_ecosystem() -> Ecosystem {
    let admin = Address::account(0, 1);
    let token_address = Address::contract(1, 1);
    let vault_address = Address::contract(1, 2);
    let mut vault = VaultContract::new(vault_address);
    let events = vault.initialize(&AuthenticatedActor::new(admin), token_address).unwrap();
    assert_eq!(events, vec![VaultEvent::Initialized(admin)]);
    Ecosystem { ledger: Ledger::new(), vault, vault_address, admin, now: 1_700_000_000, next_key: 100 }
}

#[test]
fn test_full_property_lifecycle() {
    let mut eco = setup_ecosystem();
    let admin = eco.admin;

    eco.ledger.mint(&admin, 10_000_000);
    eco.fund_vault(10_000_000);

    let property_a = eco.generate();
    let property_b = eco.generate();
    eco.authorize_property(&property_a);
    eco.authorize_property(&property_b);

    let user1 = eco.generate();
    let user2 = eco.generate();

    eco.request_liquidation(&property_a, &user1, 10_066_67);
    assert_eq!(eco.ledger.balance(&user1), 10_066_67);

    eco.request_liquidation(&property_a, &user2, 5_033_33);
    assert_eq!(eco.ledger.balance(&user2), 5_033_33);

    let user3 = eco.generate();
    eco.request_liquidation(&property_b, &user3, 20_166_67);
    assert_eq!(eco.ledger.balance(&user3), 20_166_67);

    let config = eco.get_config();
    let total_liquidated = 10_066_67 + 5_033_33 + 20_166_67;
    assert_eq!(config.available, 10_000_000 - total_liquidated);

    let stats_a = eco.get_property_stats(&property_a).unwrap();
    assert_eq!(stats_a.total_liquidated, 10_066_67 + 5_033_33);

    let stats_b = eco.get_property_stats(&property_b).unwrap();
    assert_eq!(stats_b.total_liquidated, 20_166_67);
}

#[test]
fn test_multi_property_queue_management() {
    let mut eco = setup_ecosystem();
    let admin = eco.admin;

    eco.ledger.mint(&admin, 500_000);
    eco.fund_vault(500_000);

    let property_a = eco.generate();
    let property_b = eco.generate();
    let property_c = eco.generate();
    eco.authorize_property(&property_a);
    eco.authorize_property(&property_b);
    eco.authorize_property(&property_c);

    let user_a1 = eco.generate();
    let user_a2 = eco.generate();
    let user_b1 = eco.generate();
    let user_c1 = eco.generate();

    eco.request_liquidation(&property_a, &user_a1, 200_000);
    eco.request_liquidation(&property_a, &user_a2, 150_000);
    eco.request_liquidation(&property_b, &user_b1, 300_000);
    eco.request_liquidation(&property_c, &user_c1, 100_000);

    let user_a1_balance = eco.ledger.balance(&user_a1);
    assert_eq!(user_a1_balance, 200_000);

    eco.ledger.mint(&admin, 1_000_000);
    eco.fund_vault(1_000_000);

    assert_eq!(eco.ledger.balance(&user_a2), 150_000);
    assert_eq!(eco.ledger.balance(&user_b1), 300_000);
    assert_eq!(eco.ledger.balance(&user_c1), 100_000);

    let final_config = eco.get_config();
    assert_eq!(final_config.controlled_mode, false);
}

#[test]
fn test_property_isolation() {
    let mut eco = setup_ecosystem();
    let admin = eco.admin;

    eco.ledger.mint(&admin, 5_000_000);
    eco.fund_vault(5_000_000);

    let property_good = eco.generate();
    let property_malicious = eco.generate();
    eco.authorize_property(&property_good);
    eco.authorize_property(&property_malicious);

    let user_good = eco.generate();
    eco.request_liquidation(&property_good, &user_good, 1_000_000);
    assert_eq!(eco.ledger.balance(&user_good), 1_000_000);

    let user_mal1 = eco.generate();
    let user_mal2 = eco.generate();

    eco.request_liquidation(&property_malicious, &user_mal1, 2_000_000);
    assert_eq!(eco.ledger.balance(&user_mal1), 2_000_000);

    eco.request_liquidation(&property_malicious, &user_mal2, 1_500_000);
    assert_eq!(eco.ledger.balance(&user_mal2), 0);

    let user_good2 = eco.generate();
    eco.request_liquidation(&property_good, &user_good2, 500_000);

    let stats_good = eco.get_property_stats(&property_good).unwrap();
    let stats_mal = eco.get_property_stats(&property_malicious).unwrap();

    assert!(stats_good.total_liquidated >= 1_000_000);
    assert_eq!(stats_mal.total_liquidated, 2_000_000);
}

#[test]
fn test_buffer_protection_during_liquidations() {
    let mut eco = setup_ecosystem();
    let admin = eco.admin;

    eco.ledger.mint(&admin, 1_000_000);
    eco.fund_vault(1_000_000);

    let property = eco.generate();
    eco.authorize_property(&property);

    let user1 = eco.generate();
    eco.request_liquidation(&property, &user1, 900_000);

    let balance = eco.ledger.balance(&user1);
    assert_eq!(balance, 0);

    let config = eco.get_config();
    assert_eq!(config.controlled_mode, true);

    let queue_status = eco.get_queue_status();
    assert_eq!(queue_status.total_amount, 900_000);
}

#[test]
fn test_compounding_simulation() {
    let mut eco = setup_ecosystem();
    let admin = eco.admin;

    eco.ledger.mint(&admin, 10_000_000);
    eco.fund_vault(10_000_000);

    let property = eco.generate();
    eco.authorize_property(&property);

    let user_non_compound = eco.generate();
    eco.request_liquidation(&property, &user_non_compound, 1_020_000);
    assert_eq!(eco.ledger.balance(&user_non_compound), 1_020_000);

    let user_compound = eco.generate();
    eco.request_liquidation(&property, &user_compound, 1_025_000);
    assert_eq!(eco.ledger.balance(&user_compound), 1_025_000);

    let config = eco.get_config();
    assert!(config.available > 7_900_000);
}

#[test]
fn test_loyalty_bonus_progression() {
    let mut eco = setup_ecosystem();
    let admin = eco.admin;

    eco.ledger.mint(&admin, 5_000_000);
    eco.fund_vault(5_000_000);

    let property = eco.generate();
    eco.authorize_property(&property);

    let user = eco.generate();

    eco.request_liquidation(&property, &user, 1_006_667);
    eco.request_liquidation(&property, &user, 1_007_500);

    assert_eq!(eco.ledger.balance(&user), 1_006_667 + 1_007_500);
}

#[test]
fn test_emergency_pause_effect_on_properties() {
    let mut eco = setup_ecosystem();
    let admin = eco.admin;

    eco.ledger.mint(&admin, 5_000_000);
    eco.fund_vault(5_000_000);

    let property = eco.generate();
    eco.authorize_property(&property);

    let user1 = eco.generate();
    eco.request_liquidation(&property, &user1, 1_000_000);
    assert_eq!(eco.ledger.balance(&user1), 1_000_000);

    let now = eco.now;
    eco.vault.emergency_pause(&AuthenticatedActor::new(admin), now).unwrap();

    let blocked = eco.generate();
    let held = eco.ledger.balance(&eco.vault_address);
    assert_eq!(
        eco.vault.request_liquidation(&AuthenticatedActor::new(property), blocked, 1_000_000, held, now),
        Err(VaultError::EmergencyPaused)
    );

    let config = eco.get_config();
    assert_eq!(config.emergency_pause, true);

    let events = eco.vault.emergency_unpause(&AuthenticatedActor::new(admin), now).unwrap();
    eco.settle(&events);

    let user2 = eco.generate();
    eco.request_liquidation(&property, &user2, 1_000_000);
    assert_eq!(eco.ledger.balance(&user2), 1_000_000);
}

#[test]
fn test_vault_liquidity_refill_scenario() {
    let mut eco = setup_ecosystem();
    let admin = eco.admin;

    eco.ledger.mint(&admin, 200_000);
    eco.fund_vault(200_000);

    let property = eco.generate();
    eco.authorize_property(&property);

    let user0 = eco.generate();
    let user1 = eco.generate();
    let user2 = eco.generate();
    let user3 = eco.generate();
    let user4 = eco.generate();

    eco.request_liquidation(&property, &user0, 100_000);
    assert_eq!(eco.ledger.balance(&user0), 100_000);

    eco.request_liquidation(&property, &user1, 80_000);
    eco.request_liquidation(&property, &user2, 60_000);
    eco.request_liquidation(&property, &user3, 50_000);
    eco.request_liquidation(&property, &user4, 40_000);

    let queue_status = eco.get_queue_status();
    assert!(queue_status.total_queued > 0);
    assert_eq!(queue_status.controlled_mode, true);

    eco.ledger.mint(&admin, 500_000);
    eco.fund_vault(500_000);

    assert_eq!(eco.ledger.balance(&user1), 80_000);
    assert_eq!(eco.ledger.balance(&user2), 60_000);
    assert_eq!(eco.ledger.balance(&user3), 50_000);
    assert_eq!(eco.ledger.balance(&user4), 40_000);

    let final_config = eco.get_config();
    assert_eq!(final_config.controlled_mode, false);
}

#[test]
fn test_buffer_adjustment_impact() {
    let mut eco = setup_ecosystem();
    let admin = eco.admin;

    eco.ledger.mint(&admin, 1_000_000);
    eco.fund_vault(1_000_000);

    let property = eco.generate();
    eco.authorize_property(&property);

    let user1 = eco.generate();
    eco.request_liquidation(&property, &user1, 850_000);
    assert_eq!(eco.ledger.balance(&user1), 850_000);

    eco.vault.update_buffer_percentage(&AuthenticatedActor::new(admin), 20).unwrap();

    let user2 = eco.generate();
    eco.request_liquidation(&property, &user2, 50_000);
    assert_eq!(eco.ledger.balance(&user2), 0);

    let config = eco.get_config();
    assert_eq!(config.controlled_mode, true);
}

#[test]
fn test_statistics_tracking_accuracy() {
    let mut eco = setup_ecosystem();
    let admin = eco.admin;

    eco.ledger.mint(&admin, 10_000_000);
    eco.fund_vault(10_000_000);

    let property = eco.generate();
    eco.authorize_property(&property);

    let stats = eco.get_property_stats(&property).unwrap();
    assert_eq!(stats.total_liquidated, 0);

    let user_a = eco.generate();
    let user_b = eco.generate();
    let user_c = eco.generate();
    let user_d = eco.generate();

    eco.request_liquidation(&property, &user_a, 100_000);
    eco.request_liquidation(&property, &user_b, 250_000);
    eco.request_liquidation(&property, &user_c, 175_000);
    eco.request_liquidation(&property, &user_d, 500_000);

    let expected_total = 100_000i128 + 250_000 + 175_000 + 500_000;

    let final_stats = eco.get_property_stats(&property).unwrap();
    assert_eq!(final_stats.total_liquidated, expected_total);
    assert_eq!(final_stats.total_liquidated, 1_025_000);
}

#[test]
fn the_vault_holds_what_its_books_say() {
    let mut eco = setup_ecosystem();
    let admin = eco.admin;
    let vault_address = eco.vault_address;
    let property = eco.generate();
    eco.authorize_property(&property);
    eco.ledger.mint(&admin, 10_000_000);

    let mut queued = 0;
    let mut check = |eco: &Ecosystem| {
        // Every deposit was counted and every payout was made: the ledger agrees with the vault.
        assert_eq!(eco.ledger.balance(&vault_address), eco.get_config().available);
        let status = eco.get_queue_status();
        assert_eq!(eco.vault.calculate_queue_obligations(), Ok(status.total_amount));
        status.total_amount
    };

    eco.fund_vault(1_000_000);
    check(&eco);
    for (n, amount) in [500_000i128, 300_000, 100_000, 90_000, 20_000, 400_000].iter().enumerate() {
        let user = Address::account(5, n as u128);
        let before = eco.get_config().available;
        let events = eco.request_liquidation(&property, &user, *amount);
        let paid: i128 = events
            .iter()
            .map(|e| match e {
                VaultEvent::LiquidationExecuted(_, _, a) => *a,
                _ => 0,
            })
            .sum();
        assert_eq!(eco.get_config().available, before - paid);
        assert_eq!(eco.ledger.balance(&user), paid);
        queued = check(&eco);
    }
    // 500,000 and 300,000 were paid at once; the rest waits.
    assert_eq!(queued, 100_000 + 90_000 + 20_000 + 400_000);
    assert_eq!(eco.get_config().available, 200_000);

    for deposit in [50_000i128, 150_000, 1_000_000] {
        let free_before = eco.get_config().available - queued;
        let events = eco.fund_vault(deposit);
        let paid: i128 = events
            .iter()
            .map(|e| match e {
                VaultEvent::LiquidationExecuted(_, _, a) => *a,
                _ => 0,
            })
            .sum();
        let left = check(&eco);
        // What left the queue is what was paid; what is free grew by the deposit alone.
        assert_eq!(queued - left, paid);
        assert_eq!(eco.get_config().available - left, free_before + deposit);
        queued = left;
    }
    assert_eq!(queued, 0);
    assert_eq!(eco.get_config().controlled_mode, false);
    assert_eq!(eco.get_config().available, 200_000 + 1_200_000 - 610_000);
}
