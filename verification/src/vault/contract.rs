//! The vault as an executable state object. Each operation is proved to take
//! the step that the model describes, or to fail with the model's error and
//! leave the vault as it was.

use std::collections::HashMap;
use vstd::prelude::*;
use crate::address::{Address, AuthenticatedActor};
use crate::address_map::AddressMap;
use crate::arith::{checked_mul_div, deadline_after, fits_i128};
use crate::vault::laws::{
    lemma_admin_switches_keep_wf, lemma_authorize_keeps_wf, lemma_drain_keeps_wf,
    lemma_fund_keeps_wf, lemma_initialize_keeps_wf, lemma_instant_payout_keeps_buffer,
    lemma_liquidity_accounting, lemma_queued_amount_monotone, lemma_queued_count_monotone,
    lemma_request_keeps_wf, lemma_withdraw_keeps_wf, lemma_withdrawal_leaves_queue_covered,
};
use crate::vault::model::{
    accumulation_seconds, buffer_threshold, credit_if_known, credited, expected_cash_flow,
    has_request, ids_ascend, live_requests, paid_out, queued_amount, queued_count,
    requests_in_range, requests_to_queue, walk_queue, QueueWalk, VaultState,
};
use crate::vault::types::{
    LiquidationRequest, PropertyVaultStats, QueueStatus, VaultConfig, VaultError, VaultEvent,
};

verus! {

/// A vault: its configuration, the authorised properties with their
/// statistics, and the liquidation queue.
pub struct VaultContract {
    contract_address: Address,
    config: Option<VaultConfig>,
    authorized: Vec<Address>,
    stats: AddressMap<PropertyVaultStats>,
    queue_head: u64,
    queue_tail: u64,
    queue: HashMap<u64, LiquidationRequest>,
}

/// The buffer threshold `total_capacity * buffer_percentage / 100`, or `None`
/// when the product overflows.
pub fn compute_buffer_threshold(total_capacity: i128, buffer_percentage: u32) -> (r: Option<i128>)
    ensures
        r == buffer_threshold(total_capacity, buffer_percentage),
{
    checked_mul_div(total_capacity, buffer_percentage as i128, 100)
}

/// `stats` after a payout of `amount` at `now`, or `None` when the total
/// liquidated overflows.
pub fn credit_stats(stats: &PropertyVaultStats, amount: i128, now: u64) -> (r: Option<
    PropertyVaultStats,
>)
    ensures
        r == credited(*stats, amount, now),
{
    match stats.total_liquidated.checked_add(amount) {
        None => None,
        Some(total) => Some(
            PropertyVaultStats {
                property_contract: stats.property_contract,
                total_liquidated: total,
                last_liquidation: now,
                active_users: stats.active_users,
                cash_flow_monthly: stats.cash_flow_monthly,
            },
        ),
    }
}


/// The seconds `amount` needs to accumulate at `monthly` per thirty days, with
/// at most twelve months counted.
pub fn seconds_to_accumulate(amount: i128, monthly: i128) -> (r: u64)
    requires
        monthly > 0,
    ensures
        r == accumulation_seconds(amount, monthly),
{
    let months: i128 = amount / monthly;
    let capped: i128 = if months > 12 {
        12
    } else {
        months
    };
    let seconds: i128 = match capped.checked_mul(2_592_000) {
        Some(s) => s,
        None => 2_592_000,
    };
    match seconds.checked_rem_euclid(0x1_0000_0000_0000_0000) {
        Some(low) => low as u64,
        None => 0,
    }
}

/// The requests of `queue` with ids from `from` on.
pub open spec fn queue_from(queue: Map<u64, LiquidationRequest>, from: u64) -> Map<
    u64,
    LiquidationRequest,
> {
    Map::new(|id: u64| queue.contains_key(id) && id >= from, |id: u64| queue[id])
}

/// The result of a walk that emitted `earlier` before it went on as `rest`.
pub open spec fn with_earlier_events(
    earlier: Seq<VaultEvent>,
    rest: Result<QueueWalk, VaultError>,
) -> Result<QueueWalk, VaultError> {
    match rest {
        Err(e) => Err(e),
        Ok(w) => Ok(
            QueueWalk {
                available: w.available,
                stats: w.stats,
                queue: w.queue,
                cursor: w.cursor,
                events: earlier + w.events,
            },
        ),
    }
}

/// Removes from `queue` every request with an id in `lo..hi`.
fn remove_range(queue: &mut HashMap<u64, LiquidationRequest>, lo: u64, hi: u64)
    requires
        lo <= hi,
        forall|id: u64| #[trigger] old(queue)@.contains_key(id) ==> id >= lo,
    ensures
        final(queue)@ == queue_from(old(queue)@, hi),
{
    broadcast use vstd::std_specs::hash::group_hash_axioms;

    let mut id: u64 = lo;
    assert(queue@ =~= queue_from(old(queue)@, lo));
    while id < hi
        invariant
            lo <= id <= hi,
            queue@ == queue_from(old(queue)@, id),
        decreases hi - id,
    {
        queue.remove(&id);
        assert(queue@ =~= queue_from(old(queue)@, (id + 1) as u64));
        id += 1;
    }
}

impl VaultContract {
    /// The state this vault is in.
    pub closed spec fn view(&self) -> VaultState {
        VaultState {
            contract_address: self.contract_address,
            config: self.config,
            authorized: self.authorized@,
            stats: self.stats@,
            queue_head: self.queue_head,
            queue_tail: self.queue_tail,
            queue: self.queue@,
        }
    }

    /// What the representation needs beyond the state it stands for.
    pub closed spec fn repr_inv(&self) -> bool {
        self.stats.inv()
    }

    /// The invariant of every vault: it stands for a well-formed state.
    pub open spec fn inv(&self) -> bool {
        self.repr_inv() && self@.wf()
    }

    /// A deployed vault that has not been initialised.
    pub fn new(contract_address: Address) -> (vault: VaultContract)
        ensures
            vault.inv(),
            vault@ == VaultState::uninitialized(contract_address),
    {
        let vault = VaultContract {
            contract_address,
            config: None,
            authorized: Vec::new(),
            stats: AddressMap::new(),
            queue_head: 0,
            queue_tail: 0,
            queue: HashMap::new(),
        };
        assert(vault.authorized@ =~= Seq::<Address>::empty());
        assert(vault.queue@ =~= Map::<u64, LiquidationRequest>::empty());
        vault
    }

    /// The vault's own identity.
    pub fn contract_address(&self) -> (a: Address)
        ensures
            a == self@.contract_address,
    {
        self.contract_address
    }

    /// One-time initialisation by `admin` with the stablecoin the vault holds.
    /// The buffer starts at 15 percent, capacity and available liquidity at 0,
    /// with neither controlled mode nor pause.
    pub fn initialize(&mut self, admin: &AuthenticatedActor, stablecoin_address: Address) -> (r:
        Result<Vec<VaultEvent>, VaultError>)
        requires
            old(self).inv(),
        ensures
            final(self).inv(),
            match old(self)@.initialize(admin@, stablecoin_address) {
                Ok(step) => r matches Ok(events) && events@ == step.events && final(self)@
                    == step.state,
                Err(e) => r == Err::<Vec<VaultEvent>, VaultError>(e) && final(self)@ == old(
                    self,
                )@,
            },
    {
        if self.config.is_some() {
            return Err(VaultError::AlreadyInitialized);
        }
        if stablecoin_address == self.contract_address {
            return Err(VaultError::StablecoinIsVault);
        }
        proof {
            lemma_initialize_keeps_wf(self@, admin@, stablecoin_address);
        }
        self.config = Some(
            VaultConfig {
                admin: admin.address(),
                stablecoin_address,
                total_capacity: 0,
                available: 0,
                buffer_percentage: 15,
                controlled_mode: false,
                emergency_pause: false,
            },
        );
        self.authorized = Vec::new();
        self.queue_head = 0;
        self.queue_tail = 0;
        let mut events: Vec<VaultEvent> = Vec::new();
        events.push(VaultEvent::Initialized(admin.address()));
        proof {
            assert(self.authorized@ =~= Seq::<Address>::empty());
            assert(events@ =~= seq![VaultEvent::Initialized(admin@)]);
        }
        Ok(events)
    }

    /// Whether `property_contract` is on the authorised list.
    pub fn is_authorized(&self, property_contract: &Address) -> (authorized: bool)
        ensures
            authorized == self@.is_authorized(*property_contract),
    {
        let mut i: usize = 0;
        while i < self.authorized.len()
            invariant
                i <= self.authorized@.len(),
                forall|j: int| 0 <= j < i ==> self.authorized@[j] != *property_contract,
            decreases self.authorized@.len() - i,
        {
            if self.authorized[i] == *property_contract {
                return true;
            }
            i += 1;
        }
        false
    }

    /// Puts `property_contract` on the authorised list and gives it a zeroed
    /// statistics record. Refused if the property is on the list already.
    pub fn authorize_property(&mut self, admin: &AuthenticatedActor, property_contract: Address) -> (r:
        Result<Vec<VaultEvent>, VaultError>)
        requires
            old(self).inv(),
        ensures
            final(self).inv(),
            match old(self)@.authorize_property(admin@, property_contract) {
                Ok(step) => r matches Ok(events) && events@ == step.events && final(self)@
                    == step.state,
                Err(e) => r == Err::<Vec<VaultEvent>, VaultError>(e) && final(self)@ == old(
                    self,
                )@,
            },
    {
        let config = match self.config {
            None => { return Err(VaultError::NotInitialized); },
            Some(c) => c,
        };
        if admin.address() != config.admin {
            return Err(VaultError::NotAdmin);
        }
        if self.is_authorized(&property_contract) {
            return Err(VaultError::AlreadyAuthorized);
        }
        proof {
            lemma_authorize_keeps_wf(self@, admin@, property_contract);
        }
        self.authorized.push(property_contract);
        self.stats.insert(
            property_contract,
            PropertyVaultStats {
                property_contract,
                total_liquidated: 0,
                last_liquidation: 0,
                active_users: 0,
                cash_flow_monthly: 0,
            },
        );
        let mut events: Vec<VaultEvent> = Vec::new();
        events.push(VaultEvent::PropertyAuthorized(admin.address(), property_contract));
        proof {
            assert(events@ =~= seq![VaultEvent::PropertyAuthorized(admin@, property_contract)]);
        }
        Ok(events)
    }

    /// The configuration, once the vault is initialised.
    pub fn get_config(&self) -> (r: Result<VaultConfig, VaultError>)
        ensures
            match self@.config {
                Some(c) => r == Ok::<VaultConfig, VaultError>(c),
                None => r == Err::<VaultConfig, VaultError>(VaultError::NotInitialized),
            },
    {
        match self.config {
            Some(c) => Ok(c),
            None => Err(VaultError::NotInitialized),
        }
    }

    /// The liquidity that is not committed.
    pub fn available_liquidity(&self) -> (r: Result<i128, VaultError>)
        ensures
            match self@.config {
                Some(c) => r == Ok::<i128, VaultError>(c.available),
                None => r == Err::<i128, VaultError>(VaultError::NotInitialized),
            },
    {
        match self.config {
            Some(c) => Ok(c.available),
            None => Err(VaultError::NotInitialized),
        }
    }

    /// The cumulative net deposits.
    pub fn total_capacity(&self) -> (r: Result<i128, VaultError>)
        ensures
            match self@.config {
                Some(c) => r == Ok::<i128, VaultError>(c.total_capacity),
                None => r == Err::<i128, VaultError>(VaultError::NotInitialized),
            },
    {
        match self.config {
            Some(c) => Ok(c.total_capacity),
            None => Err(VaultError::NotInitialized),
        }
    }

    /// The statistics record of `property_contract`, if it has one.
    pub fn get_property_stats(&self, property_contract: &Address) -> (r: Option<PropertyVaultStats>)
        requires
            self.inv(),
        ensures
            match r {
                Some(stats) => self@.stats.contains_key(*property_contract) && stats
                    == self@.stats[*property_contract],
                None => !self@.stats.contains_key(*property_contract),
            },
    {
        match self.stats.get(property_contract) {
            Some(stats) => Some(*stats),
            None => None,
        }
    }
}

impl VaultContract {
    /// The monthly cash flow expected from all authorised properties.
    pub fn calculate_expected_cash_flow(&self) -> (total: i128)
        requires
            self.inv(),
        ensures
            total == expected_cash_flow(self@.authorized, self@.stats),
    {
        let mut total: i128 = 0;
        let mut i: usize = 0;
        assert(self.authorized@.take(0) =~= Seq::<Address>::empty());
        while i < self.authorized.len()
            invariant
                self.inv(),
                i <= self.authorized@.len(),
                total == expected_cash_flow(self.authorized@.take(i as int), self.stats@),
            decreases self.authorized@.len() - i,
        {
            let property = self.authorized[i];
            proof {
                assert(self.authorized@.take(i + 1).drop_last() =~= self.authorized@.take(i as int));
                assert(self.authorized@.take(i + 1).last() == property);
            }
            match self.stats.get(&property) {
                Some(stats) => match total.checked_add(stats.cash_flow_monthly) {
                    Some(sum) => {
                        total = sum;
                    },
                    None => {},
                },
                None => {},
            }
            i += 1;
        }
        assert(self.authorized@.take(i as int) =~= self.authorized@);
        total
    }

    /// When a request of `amount` made at `now` is expected to be paid: after
    /// ninety days if no cash flow is expected, else after as many whole months,
    /// at most twelve, as the expected monthly cash flow needs to reach
    /// `amount`. The date is advisory; it gates nothing.
    pub fn estimate_fulfillment(&self, amount: i128, now: u64) -> (date: u64)
        requires
            self.inv(),
        ensures
            date == self@.estimate_fulfillment(amount, now),
    {
        let monthly = self.calculate_expected_cash_flow();
        if monthly <= 0 {
            deadline_after(now, 7_776_000)
        } else {
            deadline_after(now, seconds_to_accumulate(amount, monthly))
        }
    }

    /// The sum of the amounts of all queued requests.
    pub fn calculate_queue_obligations(&self) -> (r: Result<i128, VaultError>)
        requires
            self.inv(),
        ensures
            match r {
                Ok(total) => total == self@.queue_obligations(),
                Err(e) => e == VaultError::Overflow && !fits_i128(self@.queue_obligations()),
            },
    {
        broadcast use vstd::std_specs::hash::group_hash_axioms;

        let mut total: i128 = 0;
        let mut id: u64 = self.queue_head;
        while id < self.queue_tail
            invariant
                self.inv(),
                self.queue_head <= id <= self.queue_tail,
                total == queued_amount(self.queue@, self.queue_head, id),
            decreases self.queue_tail - id,
        {
            proof {
                lemma_queued_amount_monotone(
                    self.queue@,
                    self.queue_head,
                    (id + 1) as u64,
                    self.queue_tail,
                );
            }
            match self.queue.get(&id) {
                Some(request) => match total.checked_add(request.amount) {
                    Some(sum) => {
                        total = sum;
                    },
                    None => {
                        return Err(VaultError::Overflow);
                    },
                },
                None => {},
            }
            id += 1;
        }
        Ok(total)
    }

    /// A summary of the queue: how many requests wait, their total, the two
    /// cursors, and when the queue is expected to be clear.
    pub fn get_queue_status(&self, now: u64) -> (r: Result<QueueStatus, VaultError>)
        requires
            self.inv(),
        ensures
            r == self@.queue_status(now),
    {
        broadcast use vstd::std_specs::hash::group_hash_axioms;

        let config = match self.config {
            None => {
                return Err(VaultError::NotInitialized);
            },
            Some(c) => c,
        };
        let mut total_amount: i128 = 0;
        let mut total_queued: u32 = 0;
        let mut id: u64 = self.queue_head;
        while id < self.queue_tail
            invariant
                self.inv(),
                self.queue_head <= id <= self.queue_tail,
                total_amount == queued_amount(self.queue@, self.queue_head, id),
                total_queued == queued_count(self.queue@, self.queue_head, id),
            decreases self.queue_tail - id,
        {
            proof {
                lemma_queued_amount_monotone(
                    self.queue@,
                    self.queue_head,
                    (id + 1) as u64,
                    self.queue_tail,
                );
                lemma_queued_count_monotone(
                    self.queue@,
                    self.queue_head,
                    (id + 1) as u64,
                    self.queue_tail,
                );
            }
            match self.queue.get(&id) {
                Some(request) => {
                    match total_amount.checked_add(request.amount) {
                        Some(sum) => {
                            total_amount = sum;
                        },
                        None => {
                            return Err(VaultError::Overflow);
                        },
                    }
                    match total_queued.checked_add(1) {
                        Some(count) => {
                            total_queued = count;
                        },
                        None => {
                            return Err(VaultError::Overflow);
                        },
                    }
                },
                None => {},
            }
            id += 1;
        }
        let monthly = self.calculate_expected_cash_flow();
        let estimated_clear_time = if total_amount == 0 || monthly <= 0 {
            now
        } else {
            deadline_after(now, seconds_to_accumulate(total_amount, monthly))
        };
        Ok(
            QueueStatus {
                total_queued,
                total_amount,
                controlled_mode: config.controlled_mode,
                head_index: self.queue_head,
                tail_index: self.queue_tail,
                estimated_clear_time,
            },
        )
    }

    /// A property's request that the vault pay `amount` to `user`, given the
    /// stablecoin the vault holds and the time.
    ///
    /// The request is refused while the vault is paused, for an amount that is
    /// not positive, and for a property that is not authorised. Otherwise, with
    /// `t = total_capacity * buffer_percentage / 100`: if the vault is not in
    /// controlled mode and `available >= t + amount`, the amount is paid at
    /// once (one `LiquidationExecuted`); else the request is stored under the
    /// tail id, and the vault enters controlled mode if it was not in it.
    pub fn request_liquidation(
        &mut self,
        property_contract: &AuthenticatedActor,
        user: Address,
        amount: i128,
        vault_balance: i128,
        now: u64,
    ) -> (r: Result<Vec<VaultEvent>, VaultError>)
        requires
            old(self).inv(),
        ensures
            final(self).inv(),
            match old(self)@.request_liquidation(
                property_contract@,
                user,
                amount,
                vault_balance,
                now,
            ) {
                Ok(step) => r matches Ok(events) && events@ == step.events && final(self)@
                    == step.state,
                Err(e) => r == Err::<Vec<VaultEvent>, VaultError>(e) && final(self)@ == old(
                    self,
                )@,
            },
            r matches Ok(events) && events@ == seq![
                VaultEvent::LiquidationExecuted(property_contract@, user, amount),
            ] ==> {
                let before = old(self)@.config->0;
                let after = final(self)@.config->0;
                &&& after.available == before.available - amount
                &&& after.available >= (after.total_capacity * after.buffer_percentage) / 100
            },
    {
        broadcast use vstd::std_specs::hash::group_hash_axioms;

        let config = match self.config {
            None => {
                return Err(VaultError::NotInitialized);
            },
            Some(c) => c,
        };
        if config.emergency_pause {
            return Err(VaultError::EmergencyPaused);
        }
        if amount <= 0 {
            return Err(VaultError::InvalidAmount);
        }
        let property = property_contract.address();
        if !self.is_authorized(&property) {
            return Err(VaultError::PropertyNotAuthorized);
        }
        let threshold = match compute_buffer_threshold(
            config.total_capacity,
            config.buffer_percentage,
        ) {
            None => {
                return Err(VaultError::Overflow);
            },
            Some(t) => t,
        };
        let required = match threshold.checked_add(amount) {
            None => {
                return Err(VaultError::Overflow);
            },
            Some(sum) => sum,
        };
        proof {
            lemma_request_keeps_wf(self@, property, user, amount, vault_balance, now);
        }
        let mut events: Vec<VaultEvent> = Vec::new();
        if config.available >= required && !config.controlled_mode {
            if vault_balance < amount {
                return Err(VaultError::InsufficientVaultBalance);
            }
            let remaining = match config.available.checked_sub(amount) {
                None => {
                    return Err(VaultError::Overflow);
                },
                Some(rest) => rest,
            };
            let record = match self.stats.get(&property) {
                Some(stats) => *stats,
                None => PropertyVaultStats {
                    property_contract: property,
                    total_liquidated: 0,
                    last_liquidation: 0,
                    active_users: 0,
                    cash_flow_monthly: 0,
                },
            };
            let updated = match credit_stats(&record, amount, now) {
                None => {
                    return Err(VaultError::Overflow);
                },
                Some(stats) => stats,
            };
            self.config = Some(
                VaultConfig {
                    admin: config.admin,
                    stablecoin_address: config.stablecoin_address,
                    total_capacity: config.total_capacity,
                    available: remaining,
                    buffer_percentage: config.buffer_percentage,
                    controlled_mode: config.controlled_mode,
                    emergency_pause: config.emergency_pause,
                },
            );
            self.stats.insert(property, updated);
            events.push(VaultEvent::LiquidationExecuted(property, user, amount));
            proof {
                assert(events@ =~= seq![VaultEvent::LiquidationExecuted(property, user, amount)]);
                lemma_instant_payout_keeps_buffer(
                    old(self)@,
                    property,
                    user,
                    amount,
                    vault_balance,
                    now,
                );
            }
        } else {
            if self.queue_tail == u64::MAX {
                return Err(VaultError::QueueOverflow);
            }
            let request_id = self.queue_tail;
            let estimated_fulfill_date = self.estimate_fulfillment(amount, now);
            if !config.controlled_mode {
                events.push(VaultEvent::ControlledModeActivated(now));
            }
            self.config = Some(
                VaultConfig {
                    admin: config.admin,
                    stablecoin_address: config.stablecoin_address,
                    total_capacity: config.total_capacity,
                    available: config.available,
                    buffer_percentage: config.buffer_percentage,
                    controlled_mode: true,
                    emergency_pause: config.emergency_pause,
                },
            );
            self.queue.insert(
                request_id,
                LiquidationRequest {
                    request_id,
                    property,
                    user,
                    amount,
                    timestamp: now,
                    estimated_fulfill_date,
                },
            );
            self.queue_tail = request_id + 1;
            events.push(VaultEvent::LiquidationQueued(request_id, property, user, amount));
            proof {
                let queued = VaultEvent::LiquidationQueued(request_id, property, user, amount);
                if config.controlled_mode {
                    assert(events@ =~= seq![queued]);
                    assert(events@[0] != VaultEvent::LiquidationExecuted(property, user, amount));
                } else {
                    assert(events@ =~= seq![VaultEvent::ControlledModeActivated(now), queued]);
                    assert(events@.len() == 2);
                }
            }
        }
        Ok(events)
    }
}

/// Events emitted one after another regroup: `earlier`, then `event`, then the
/// rest of a walk, is `earlier` with `event` appended, then the rest.
proof fn lemma_events_regroup(
    earlier: Seq<VaultEvent>,
    event: VaultEvent,
    rest: Result<QueueWalk, VaultError>,
)
    ensures
        with_earlier_events(earlier, crate::vault::model::after_payment(event, rest))
            == with_earlier_events(earlier.push(event), rest),
{
    if let Ok(w) = rest {
        assert(earlier + (seq![event] + w.events) =~= earlier.push(event) + w.events);
    }
}

impl VaultContract {
    /// A drain pass. Outside controlled mode it does nothing. In controlled
    /// mode it walks the queue from the head in id order: a consumed id is
    /// passed over, a request with `available >= threshold + amount` is paid
    /// (one `LiquidationExecuted`, its property's record credited) and removed,
    /// and the first request that does not fit ends the pass; nothing behind it
    /// is looked at. The head moves to where the pass ended; if that is the
    /// tail, controlled mode ends (`ControlledModeDeactivated`).
    pub(crate) fn attempt_process_queue(&mut self, now: u64) -> (r: Result<
        Vec<VaultEvent>,
        VaultError,
    >)
        requires
            old(self).inv(),
            old(self)@.config is Some,
        ensures
            final(self).inv(),
            match old(self)@.drain(now) {
                Ok(step) => r matches Ok(events) && events@ == step.events && final(self)@
                    == step.state,
                Err(e) => r == Err::<Vec<VaultEvent>, VaultError>(e) && final(self)@ == old(
                    self,
                )@,
            },
    {
        broadcast use vstd::std_specs::hash::group_hash_axioms;

        let config = match self.config {
            None => {
                return Err(VaultError::NotInitialized);
            },
            Some(c) => c,
        };
        let mut events: Vec<VaultEvent> = Vec::new();
        if !config.controlled_mode {
            return Ok(events);
        }
        let threshold = match compute_buffer_threshold(
            config.total_capacity,
            config.buffer_percentage,
        ) {
            None => {
                return Err(VaultError::Overflow);
            },
            Some(t) => t,
        };
        proof {
            lemma_drain_keeps_wf(self@, now);
        }
        let head = self.queue_head;
        let tail = self.queue_tail;
        let mut cursor: u64 = head;
        let mut available: i128 = config.available;
        let mut stats = self.stats.duplicate();
        let mut blocked = false;
        let ghost queue = self.queue@;
        let ghost whole = walk_queue(
            queue,
            self.stats@,
            config.available,
            head,
            tail,
            threshold,
            now,
        );
        proof {
            assert(queue_from(queue, head) =~= queue);
            assert(Seq::<VaultEvent>::empty() + whole->Ok_0.events =~= whole->Ok_0.events);
        }
        while cursor < tail && !blocked
            invariant
                *self == *old(self),
                self.inv(),
                self.config == Some(config),
                config.controlled_mode,
                buffer_threshold(config.total_capacity, config.buffer_percentage) == Some(
                    threshold,
                ),
                head == self.queue_head,
                tail == self.queue_tail,
                whole == walk_queue(
                    queue,
                    self.stats@,
                    config.available,
                    head,
                    tail,
                    threshold,
                    now,
                ),
                head <= cursor <= tail,
                self.queue@ == queue,
                stats.inv(),
                whole == with_earlier_events(
                    events@,
                    walk_queue(
                        queue_from(queue, cursor),
                        stats@,
                        available,
                        cursor,
                        tail,
                        threshold,
                        now,
                    ),
                ),
                blocked ==> cursor < tail && walk_queue(
                    queue_from(queue, cursor),
                    stats@,
                    available,
                    cursor,
                    tail,
                    threshold,
                    now,
                ) == Ok::<QueueWalk, VaultError>(
                    QueueWalk {
                        available,
                        stats: stats@,
                        queue: queue_from(queue, cursor),
                        cursor,
                        events: Seq::empty(),
                    },
                ),
            decreases tail - cursor, if blocked { 0int } else { 1int },
        {
            let ghost here = queue_from(queue, cursor);
            let ghost next = queue_from(queue, (cursor + 1) as u64);
            match self.queue.get(&cursor) {
                None => {
                    proof {
                        assert(here =~= next);
                    }
                    cursor += 1;
                },
                Some(request) => {
                    proof {
                        assert(here.contains_key(cursor) && here[cursor] == *request);
                        assert(here.remove(cursor) =~= next);
                    }
                    let required = match threshold.checked_add(request.amount) {
                        None => {
                            return Err(VaultError::Overflow);
                        },
                        Some(sum) => sum,
                    };
                    if available >= required {
                        let remaining = match available.checked_sub(request.amount) {
                            None => {
                                return Err(VaultError::Overflow);
                            },
                            Some(rest) => rest,
                        };
                        let ghost stats_before = stats@;
                        let known = match stats.get(&request.property) {
                            Some(record) => Some(*record),
                            None => None,
                        };
                        match known {
                            Some(record) => match credit_stats(&record, request.amount, now) {
                                None => {
                                    return Err(VaultError::Overflow);
                                },
                                Some(updated) => {
                                    stats.insert(request.property, updated);
                                },
                            },
                            None => {},
                        }
                        let event = VaultEvent::LiquidationExecuted(
                            request.property,
                            request.user,
                            request.amount,
                        );
                        proof {
                            assert(credit_if_known(
                                stats_before,
                                request.property,
                                request.amount,
                                now,
                            ) == Some(stats@));
                            lemma_events_regroup(
                                events@,
                                event,
                                walk_queue(
                                    next,
                                    stats@,
                                    remaining,
                                    (cursor + 1) as u64,
                                    tail,
                                    threshold,
                                    now,
                                ),
                            );
                        }
                        events.push(event);
                        available = remaining;
                        cursor += 1;
                    } else {
                        blocked = true;
                    }
                },
            }
        }
        proof {
            assert(events@ + Seq::<VaultEvent>::empty() =~= events@);
            assert(whole == Ok::<QueueWalk, VaultError>(
                QueueWalk {
                    available,
                    stats: stats@,
                    queue: queue_from(queue, cursor),
                    cursor,
                    events: events@,
                },
            ));
        }
        remove_range(&mut self.queue, head, cursor);
        self.stats = stats;
        self.queue_head = cursor;
        self.config = Some(
            VaultConfig {
                admin: config.admin,
                stablecoin_address: config.stablecoin_address,
                total_capacity: config.total_capacity,
                available,
                buffer_percentage: config.buffer_percentage,
                controlled_mode: cursor < tail,
                emergency_pause: config.emergency_pause,
            },
        );
        if cursor >= tail {
            events.push(VaultEvent::ControlledModeDeactivated(now));
        }
        Ok(events)
    }
}

impl VaultContract {
    /// Whether a deposit of `amount` by `admin`, who holds `admin_balance`, may
    /// go ahead. It is refused unless the actor is the stored admin, the amount
    /// is positive, the vault is not paused, and the admin holds the amount.
    pub fn check_funding(&self, admin: &AuthenticatedActor, amount: i128, admin_balance: i128) -> (r:
        Result<(), VaultError>)
        ensures
            match self@.funding_refusal(admin@, amount, admin_balance) {
                Some(e) => r == Err::<(), VaultError>(e),
                None => r == Ok::<(), VaultError>(()),
            },
    {
        let config = match self.config {
            None => {
                return Err(VaultError::NotInitialized);
            },
            Some(c) => c,
        };
        if admin.address() != config.admin {
            return Err(VaultError::NotAdmin);
        }
        if amount <= 0 {
            return Err(VaultError::InvalidAmount);
        }
        if config.emergency_pause {
            return Err(VaultError::EmergencyPaused);
        }
        if admin_balance < amount {
            return Err(VaultError::InsufficientAdminBalance);
        }
        Ok(())
    }

    /// A deposit of `amount` by the admin. `admin_balance` and
    /// `vault_balance_before` are the stablecoin balances read before the
    /// transfer from the admin to the vault, `vault_balance_after` the vault's
    /// balance read after it.
    ///
    /// The deposit is refused as [`check_funding`](Self::check_funding) says,
    /// and if the vault's balance did not grow by exactly `amount`. On success
    /// capacity and available liquidity grow by `amount`, and if the vault is
    /// in controlled mode the queue is drained with the new liquidity. The
    /// events are those of the drain, then `Funded`.
    pub fn fund_vault(
        &mut self,
        admin: &AuthenticatedActor,
        amount: i128,
        admin_balance: i128,
        vault_balance_before: i128,
        vault_balance_after: i128,
        now: u64,
    ) -> (r: Result<Vec<VaultEvent>, VaultError>)
        requires
            old(self).inv(),
        ensures
            final(self).inv(),
            match old(self)@.fund_vault(
                admin@,
                amount,
                admin_balance,
                vault_balance_before,
                vault_balance_after,
                now,
            ) {
                Ok(step) => r matches Ok(events) && events@ == step.events && final(self)@
                    == step.state,
                Err(e) => r == Err::<Vec<VaultEvent>, VaultError>(e) && final(self)@ == old(
                    self,
                )@,
            },
            r matches Ok(events) ==> {
                let before = old(self)@.config->0;
                let after = final(self)@.config->0;
                &&& after.total_capacity == before.total_capacity + amount
                &&& after.available == before.available + amount - paid_out(events@)
                &&& events@.last() == VaultEvent::Funded(admin@, amount, after.total_capacity)
            },
    {
        match self.check_funding(admin, amount, admin_balance) {
            Err(e) => {
                return Err(e);
            },
            Ok(_) => {},
        }
        let config = match self.config {
            None => {
                return Err(VaultError::NotInitialized);
            },
            Some(c) => c,
        };
        let expected_balance = match vault_balance_before.checked_add(amount) {
            None => {
                return Err(VaultError::Overflow);
            },
            Some(sum) => sum,
        };
        if vault_balance_after != expected_balance {
            return Err(VaultError::TransferVerificationFailed);
        }
        let total_capacity = match config.total_capacity.checked_add(amount) {
            None => {
                return Err(VaultError::Overflow);
            },
            Some(sum) => sum,
        };
        let available = match config.available.checked_add(amount) {
            None => {
                return Err(VaultError::Overflow);
            },
            Some(sum) => sum,
        };
        proof {
            lemma_fund_keeps_wf(
                self@,
                admin@,
                amount,
                admin_balance,
                vault_balance_before,
                vault_balance_after,
                now,
            );
            lemma_liquidity_accounting(
                self@,
                admin@,
                admin@,
                amount,
                admin_balance,
                vault_balance_before,
                vault_balance_after,
                10,
                now,
            );
        }
        self.config = Some(
            VaultConfig {
                admin: config.admin,
                stablecoin_address: config.stablecoin_address,
                total_capacity,
                available,
                buffer_percentage: config.buffer_percentage,
                controlled_mode: config.controlled_mode,
                emergency_pause: config.emergency_pause,
            },
        );
        proof {
            lemma_drain_keeps_wf(self@, now);
        }
        match self.attempt_process_queue(now) {
            Err(e) => {
                self.config = Some(config);
                Err(e)
            },
            Ok(drained) => {
                let mut events = drained;
                events.push(VaultEvent::Funded(admin.address(), amount, total_capacity));
                Ok(events)
            },
        }
    }

    /// Whether a withdrawal of `amount` by `admin` may go ahead, given the
    /// stablecoin the vault holds. With `buffer = total_capacity *
    /// buffer_percentage / 100` and `obligations` the sum of all queued
    /// amounts, it is refused if `available - amount < buffer + obligations`.
    pub fn check_withdrawal(&self, admin: &AuthenticatedActor, amount: i128, vault_balance: i128) -> (r:
        Result<(), VaultError>)
        requires
            self.inv(),
        ensures
            match self@.withdrawal_refusal(admin@, amount, vault_balance) {
                Some(e) => r == Err::<(), VaultError>(e),
                None => r == Ok::<(), VaultError>(()),
            },
    {
        let config = match self.config {
            None => {
                return Err(VaultError::NotInitialized);
            },
            Some(c) => c,
        };
        if admin.address() != config.admin {
            return Err(VaultError::NotAdmin);
        }
        if amount <= 0 {
            return Err(VaultError::InvalidAmount);
        }
        if config.emergency_pause {
            return Err(VaultError::EmergencyPaused);
        }
        let buffer = match compute_buffer_threshold(
            config.total_capacity,
            config.buffer_percentage,
        ) {
            None => {
                return Err(VaultError::Overflow);
            },
            Some(t) => t,
        };
        let obligations = match self.calculate_queue_obligations() {
            Err(_) => {
                return Err(VaultError::Overflow);
            },
            Ok(total) => total,
        };
        let min_required = match buffer.checked_add(obligations) {
            None => {
                return Err(VaultError::Overflow);
            },
            Some(sum) => sum,
        };
        let available_after = match config.available.checked_sub(amount) {
            None => {
                return Err(VaultError::InsufficientFunds);
            },
            Some(rest) => rest,
        };
        if available_after < min_required {
            return Err(VaultError::BufferViolation);
        }
        if vault_balance < amount {
            return Err(VaultError::InsufficientVaultBalance);
        }
        Ok(())
    }

    /// A withdrawal of `amount` by the admin. `vault_balance_before` and
    /// `vault_balance_after` are the vault's stablecoin balance read before and
    /// after the transfer from the vault to the admin.
    ///
    /// The withdrawal is refused as
    /// [`check_withdrawal`](Self::check_withdrawal) says, and if the vault's
    /// balance did not shrink by exactly `amount`. On success capacity and
    /// available liquidity both shrink by `amount`.
    pub fn withdraw_liquidity(
        &mut self,
        admin: &AuthenticatedActor,
        amount: i128,
        vault_balance_before: i128,
        vault_balance_after: i128,
    ) -> (r: Result<Vec<VaultEvent>, VaultError>)
        requires
            old(self).inv(),
        ensures
            final(self).inv(),
            match old(self)@.withdraw_liquidity(
                admin@,
                amount,
                vault_balance_before,
                vault_balance_after,
            ) {
                Ok(step) => r matches Ok(events) && events@ == step.events && final(self)@
                    == step.state,
                Err(e) => r == Err::<Vec<VaultEvent>, VaultError>(e) && final(self)@ == old(
                    self,
                )@,
            },
            r is Ok ==> {
                let before = old(self)@.config->0;
                let after = final(self)@.config->0;
                &&& after.total_capacity == before.total_capacity - amount
                &&& after.available == before.available - amount
                &&& after.available >= (before.total_capacity * before.buffer_percentage) / 100
                    + old(self)@.queue_obligations()
            },
    {
        match self.check_withdrawal(admin, amount, vault_balance_before) {
            Err(e) => {
                return Err(e);
            },
            Ok(_) => {},
        }
        let config = match self.config {
            None => {
                return Err(VaultError::NotInitialized);
            },
            Some(c) => c,
        };
        let expected_balance = match vault_balance_before.checked_sub(amount) {
            None => {
                return Err(VaultError::Overflow);
            },
            Some(rest) => rest,
        };
        if vault_balance_after != expected_balance {
            return Err(VaultError::WithdrawalVerificationFailed);
        }
        let total_capacity = match config.total_capacity.checked_sub(amount) {
            None => {
                return Err(VaultError::Overflow);
            },
            Some(rest) => rest,
        };
        proof {
            lemma_withdraw_keeps_wf(
                self@,
                admin@,
                amount,
                vault_balance_before,
                vault_balance_after,
            );
            lemma_withdrawal_leaves_queue_covered(
                self@,
                admin@,
                amount,
                vault_balance_before,
                vault_balance_after,
            );
        }
        let available = config.available - amount;
        self.config = Some(
            VaultConfig {
                admin: config.admin,
                stablecoin_address: config.stablecoin_address,
                total_capacity,
                available,
                buffer_percentage: config.buffer_percentage,
                controlled_mode: config.controlled_mode,
                emergency_pause: config.emergency_pause,
            },
        );
        let mut events: Vec<VaultEvent> = Vec::new();
        events.push(VaultEvent::LiquidityWithdrawn(admin.address(), amount, available));
        proof {
            assert(events@ =~= seq![VaultEvent::LiquidityWithdrawn(admin@, amount, available)]);
        }
        Ok(events)
    }

    /// Pauses the vault: until it is unpaused, funding, withdrawal and
    /// liquidation requests are refused.
    pub fn emergency_pause(&mut self, admin: &AuthenticatedActor, now: u64) -> (r: Result<
        Vec<VaultEvent>,
        VaultError,
    >)
        requires
            old(self).inv(),
        ensures
            final(self).inv(),
            match old(self)@.emergency_pause(admin@, now) {
                Ok(step) => r matches Ok(events) && events@ == step.events && final(self)@
                    == step.state,
                Err(e) => r == Err::<Vec<VaultEvent>, VaultError>(e) && final(self)@ == old(
                    self,
                )@,
            },
    {
        let config = match self.config {
            None => {
                return Err(VaultError::NotInitialized);
            },
            Some(c) => c,
        };
        if admin.address() != config.admin {
            return Err(VaultError::NotAdmin);
        }
        if config.emergency_pause {
            return Err(VaultError::AlreadyPaused);
        }
        proof {
            lemma_admin_switches_keep_wf(self@, admin@, 10, now);
        }
        self.config = Some(
            VaultConfig {
                admin: config.admin,
                stablecoin_address: config.stablecoin_address,
                total_capacity: config.total_capacity,
                available: config.available,
                buffer_percentage: config.buffer_percentage,
                controlled_mode: config.controlled_mode,
                emergency_pause: true,
            },
        );
        let mut events: Vec<VaultEvent> = Vec::new();
        events.push(VaultEvent::EmergencyPaused(admin.address(), now));
        proof {
            assert(events@ =~= seq![VaultEvent::EmergencyPaused(admin@, now)]);
        }
        Ok(events)
    }

    /// Lifts the pause and, if the vault is in controlled mode, drains the
    /// queue. The events are those of the drain, then `EmergencyUnpaused`.
    pub fn emergency_unpause(&mut self, admin: &AuthenticatedActor, now: u64) -> (r: Result<
        Vec<VaultEvent>,
        VaultError,
    >)
        requires
            old(self).inv(),
        ensures
            final(self).inv(),
            match old(self)@.emergency_unpause(admin@, now) {
                Ok(step) => r matches Ok(events) && events@ == step.events && final(self)@
                    == step.state,
                Err(e) => r == Err::<Vec<VaultEvent>, VaultError>(e) && final(self)@ == old(
                    self,
                )@,
            },
    {
        let config = match self.config {
            None => {
                return Err(VaultError::NotInitialized);
            },
            Some(c) => c,
        };
        if admin.address() != config.admin {
            return Err(VaultError::NotAdmin);
        }
        if !config.emergency_pause {
            return Err(VaultError::NotPaused);
        }
        proof {
            lemma_admin_switches_keep_wf(self@, admin@, 10, now);
        }
        self.config = Some(
            VaultConfig {
                admin: config.admin,
                stablecoin_address: config.stablecoin_address,
                total_capacity: config.total_capacity,
                available: config.available,
                buffer_percentage: config.buffer_percentage,
                controlled_mode: config.controlled_mode,
                emergency_pause: false,
            },
        );
        match self.attempt_process_queue(now) {
            Err(e) => {
                self.config = Some(config);
                Err(e)
            },
            Ok(drained) => {
                let mut events = drained;
                events.push(VaultEvent::EmergencyUnpaused(admin.address(), now));
                Ok(events)
            },
        }
    }

    /// Sets the buffer percentage, which must lie in 10..=25. The new value
    /// counts from the next admission on; the queue is not looked at again.
    pub fn update_buffer_percentage(&mut self, admin: &AuthenticatedActor, new_percentage: u32) -> (r:
        Result<Vec<VaultEvent>, VaultError>)
        requires
            old(self).inv(),
        ensures
            final(self).inv(),
            match old(self)@.update_buffer_percentage(admin@, new_percentage) {
                Ok(step) => r matches Ok(events) && events@ == step.events && final(self)@
                    == step.state,
                Err(e) => r == Err::<Vec<VaultEvent>, VaultError>(e) && final(self)@ == old(
                    self,
                )@,
            },
    {
        let config = match self.config {
            None => {
                return Err(VaultError::NotInitialized);
            },
            Some(c) => c,
        };
        if admin.address() != config.admin {
            return Err(VaultError::NotAdmin);
        }
        if new_percentage < 10 || new_percentage > 25 {
            return Err(VaultError::InvalidBufferPercentage);
        }
        proof {
            lemma_admin_switches_keep_wf(self@, admin@, new_percentage, 0);
        }
        self.config = Some(
            VaultConfig {
                admin: config.admin,
                stablecoin_address: config.stablecoin_address,
                total_capacity: config.total_capacity,
                available: config.available,
                buffer_percentage: new_percentage,
                controlled_mode: config.controlled_mode,
                emergency_pause: config.emergency_pause,
            },
        );
        let mut events: Vec<VaultEvent> = Vec::new();
        events.push(VaultEvent::BufferAdjusted(new_percentage));
        proof {
            assert(events@ =~= seq![VaultEvent::BufferAdjusted(new_percentage)]);
        }
        Ok(events)
    }
}

/// Whether no address occurs twice in `list`.
fn all_distinct(list: &Vec<Address>) -> (distinct: bool)
    ensures
        distinct == list@.no_duplicates(),
{
    let mut i: usize = 0;
    while i < list.len()
        invariant
            i <= list@.len(),
            forall|a: int, b: int| 0 <= a < b < i ==> list@[a] != list@[b],
        decreases list@.len() - i,
    {
        let mut j: usize = 0;
        while j < i
            invariant
                i < list@.len(),
                j <= i,
                forall|a: int| 0 <= a < j ==> list@[a] != list@[i as int],
            decreases i - j,
        {
            if list[j] == list[i] {
                return false;
            }
            j += 1;
        }
        i += 1;
    }
    true
}

/// Whether `address` occurs in `list`.
fn occurs_in(list: &Vec<Address>, address: &Address) -> (found: bool)
    ensures
        found == list@.contains(*address),
{
    let mut i: usize = 0;
    while i < list.len()
        invariant
            i <= list@.len(),
            forall|j: int| 0 <= j < i ==> list@[j] != *address,
        decreases list@.len() - i,
    {
        if list[i] == *address {
            return true;
        }
        i += 1;
    }
    false
}

/// Whether `stats` holds one record for each address of `authorized` and no
/// other, each under the property it names.
fn stats_match(authorized: &Vec<Address>, stats: &AddressMap<PropertyVaultStats>) -> (ok: bool)
    requires
        stats.inv(),
    ensures
        ok == ({
            &&& forall|a: Address| #[trigger]
                stats@.contains_key(a) <==> authorized@.contains(a)
            &&& forall|a: Address| #[trigger]
                stats@.contains_key(a) ==> stats@[a].property_contract == a
        }),
{
    proof {
        stats.lemma_view_of_entries();
    }
    let mut i: usize = 0;
    while i < authorized.len()
        invariant
            stats.inv(),
            i <= authorized@.len(),
            forall|j: int| 0 <= j < i ==> stats@.contains_key(#[trigger] authorized@[j]),
        decreases authorized@.len() - i,
    {
        if !stats.contains_key(&authorized[i]) {
            assert(authorized@.contains(authorized@[i as int]));
            return false;
        }
        i += 1;
    }
    let mut k: usize = 0;
    while k < stats.len()
        invariant
            stats.inv(),
            k <= stats.entries_view().len(),
            crate::address_map::distinct_keys(stats.entries_view()),
            stats@ == crate::address_map::entries_to_map(stats.entries_view()),
            forall|j: int|
                0 <= j < k ==> authorized@.contains((#[trigger] stats.entries_view()[j]).key)
                    && stats.entries_view()[j].value.property_contract
                    == stats.entries_view()[j].key,
        decreases stats.entries_view().len() - k,
    {
        let entry = stats.entry_at(k);
        proof {
            crate::address_map::lemma_entry_at(stats.entries_view(), k as int);
        }
        if !occurs_in(authorized, &entry.key) {
            return false;
        }
        if entry.value.property_contract != entry.key {
            return false;
        }
        k += 1;
    }
    proof {
        assert forall|a: Address| #[trigger] stats@.contains_key(a) implies authorized@.contains(a)
            && stats@[a].property_contract == a by {
            let j = crate::address_map::index_of(stats.entries_view(), a);
            assert(crate::address_map::has_key(stats.entries_view(), a));
            crate::address_map::lemma_entry_at(stats.entries_view(), j);
        }
        assert forall|a: Address| authorized@.contains(a) implies #[trigger] stats@.contains_key(
            a,
        ) by {
            let j = choose|j: int| 0 <= j < authorized@.len() && authorized@[j] == a;
            assert(stats@.contains_key(authorized@[j]));
        }
    }
    true
}

/// Builds the queue from a list of requests, if their ids strictly ascend
/// within `head..tail` and their amounts are positive.
fn build_queue(requests: &Vec<LiquidationRequest>, head: u64, tail: u64) -> (r: Option<
    HashMap<u64, LiquidationRequest>,
>)
    ensures
        match r {
            Some(queue) => queue@ == requests_to_queue(requests@),
            None => true,
        },
        r is Some <==> (ids_ascend(requests@) && requests_in_range(requests@, head, tail)),
{
    broadcast use vstd::std_specs::hash::group_hash_axioms;

    let mut queue: HashMap<u64, LiquidationRequest> = HashMap::new();
    let mut i: usize = 0;
    assert(queue@ =~= requests_to_queue(requests@.take(0)));
    while i < requests.len()
        invariant
            i <= requests@.len(),
            queue@ == requests_to_queue(requests@.take(i as int)),
            ids_ascend(requests@.take(i as int)),
            forall|j: int|
                0 <= j < i ==> head <= (#[trigger] requests@[j]).request_id < tail
                    && requests@[j].amount > 0,
        decreases requests@.len() - i,
    {
        let request = requests[i];
        if request.request_id < head || request.request_id >= tail || request.amount <= 0 {
            return None;
        }
        if i > 0 && requests[i - 1].request_id >= request.request_id {
            return None;
        }
        queue.insert(request.request_id, request);
        proof {
            let before = requests@.take(i as int);
            let after = requests@.take(i + 1);
            assert forall|a: int, b: int| 0 <= a < b < after.len() implies (#[trigger] after[a]).request_id
                < (#[trigger] after[b]).request_id by {
                if b < i {
                    assert(before[a].request_id < before[b].request_id);
                } else if a < i - 1 {
                    assert(before[a].request_id < before[i - 1].request_id);
                }
            }
            assert forall|id: u64| #[trigger]
                queue@.contains_key(id) <==> has_request(after, id) by {
                if has_request(after, id) {
                    let k = choose|k: int| 0 <= k < after.len() && after[k].request_id == id;
                    if k < i {
                        assert(before[k].request_id == id);
                    }
                }
                if has_request(before, id) {
                    let k = choose|k: int| 0 <= k < before.len() && before[k].request_id == id;
                    assert(after[k].request_id == id);
                }
                if id == request.request_id {
                    assert(after[i as int].request_id == id);
                }
            }
            assert forall|id: u64| #[trigger] queue@.contains_key(id) implies queue@[id]
                == requests_to_queue(after)[id] by {
                let k = choose|k: int| 0 <= k < after.len() && (#[trigger] after[k]).request_id == id;
                if k < i {
                    assert(before[k].request_id == id);
                    let k0 = choose|k0: int|
                        0 <= k0 < before.len() && (#[trigger] before[k0]).request_id == id;
                    if k0 < k {
                        assert(before[k0].request_id < before[k].request_id);
                    } else if k < k0 {
                        assert(before[k].request_id < before[k0].request_id);
                    }
                    assert(id != request.request_id) by {
                        assert(after[k].request_id < after[i as int].request_id);
                    }
                } else {
                    assert(id == request.request_id);
                }
            }
            assert(queue@ =~= requests_to_queue(after));
        }
        i += 1;
    }
    proof {
        assert(requests@.take(i as int) =~= requests@);
    }
    Some(queue)
}

/// In the queue that a list with ascending ids stands for, each request of the
/// list waits under its own id.
proof fn lemma_queue_of_requests(requests: Seq<LiquidationRequest>)
    requires
        ids_ascend(requests),
    ensures
        forall|i: int|
            0 <= i < requests.len() ==> requests_to_queue(requests).contains_key(
                (#[trigger] requests[i]).request_id,
            ) && requests_to_queue(requests)[requests[i].request_id] == requests[i],
{
    assert forall|i: int| 0 <= i < requests.len() implies requests_to_queue(
        requests,
    ).contains_key((#[trigger] requests[i]).request_id) && requests_to_queue(
        requests,
    )[requests[i].request_id] == requests[i] by {
        let id = requests[i].request_id;
        assert(has_request(requests, id));
        let k = choose|k: int| 0 <= k < requests.len() && (#[trigger] requests[k]).request_id == id;
        if k < i {
            assert(requests[k].request_id < requests[i].request_id);
        } else if i < k {
            assert(requests[i].request_id < requests[k].request_id);
        }
    }
}

/// If every request of the queue that a list with ascending ids stands for has
/// its id in `head..tail` and a positive amount, so has every request of the
/// list.
proof fn lemma_queued_requests_in_range(requests: Seq<LiquidationRequest>, head: u64, tail: u64)
    requires
        ids_ascend(requests),
        forall|id: u64| #[trigger]
            requests_to_queue(requests).contains_key(id) ==> head <= id < tail
                && requests_to_queue(requests)[id].amount > 0,
    ensures
        requests_in_range(requests, head, tail),
{
    lemma_queue_of_requests(requests);
    assert forall|i: int| 0 <= i < requests.len() implies head <= (
    #[trigger] requests[i]).request_id < tail && requests[i].amount > 0 by {
        let id = requests[i].request_id;
        assert(requests_to_queue(requests).contains_key(id));
    }
}

/// The list of waiting requests grows by what waits under the next id.
proof fn lemma_live_requests_next(queue: Map<u64, LiquidationRequest>, lo: u64, id: u64)
    requires
        lo <= id < u64::MAX,
    ensures
        live_requests(queue, lo, (id + 1) as u64) == if queue.contains_key(id) {
            live_requests(queue, lo, id).push(queue[id])
        } else {
            live_requests(queue, lo, id)
        },
{
}

impl VaultContract {
    /// The authorised properties, in the order of their authorisation.
    pub fn authorized_properties(&self) -> (list: &Vec<Address>)
        ensures
            list@ == self@.authorized,
    {
        &self.authorized
    }

    /// The id at which the next drain starts.
    pub fn queue_head(&self) -> (id: u64)
        ensures
            id == self@.queue_head,
    {
        self.queue_head
    }

    /// The id that the next queued request gets.
    pub fn queue_tail(&self) -> (id: u64)
        ensures
            id == self@.queue_tail,
    {
        self.queue_tail
    }

    /// The request that waits under `id`, if any.
    pub fn queued_request(&self, id: u64) -> (r: Option<LiquidationRequest>)
        ensures
            match r {
                Some(request) => self@.queue.contains_key(id) && self@.queue[id] == request,
                None => !self@.queue.contains_key(id),
            },
    {
        broadcast use vstd::std_specs::hash::group_hash_axioms;

        match self.queue.get(&id) {
            Some(request) => Some(*request),
            None => None,
        }
    }

    /// All requests that wait, in id order.
    pub fn queued_requests(&self) -> (list: Vec<LiquidationRequest>)
        requires
            self.inv(),
        ensures
            list@ == live_requests(self@.queue, self@.queue_head, self@.queue_tail),
    {
        broadcast use vstd::std_specs::hash::group_hash_axioms;

        let mut list: Vec<LiquidationRequest> = Vec::new();
        let mut id: u64 = self.queue_head;
        while id < self.queue_tail
            invariant
                self.queue_head <= id <= self.queue_tail,
                list@ == live_requests(self.queue@, self.queue_head, id),
            decreases self.queue_tail - id,
        {
            proof {
                lemma_live_requests_next(self.queue@, self.queue_head, id);
            }
            match self.queue.get(&id) {
                Some(request) => {
                    list.push(*request);
                },
                None => {},
            }
            id += 1;
        }
        list
    }

    /// Puts a vault together from stored parts: its configuration, the list of
    /// authorised properties, one statistics record per authorised property,
    /// the two queue cursors, and the waiting requests in ascending order of
    /// their ids. The parts are refused unless they make a well-formed vault.
    pub fn restore(
        contract_address: Address,
        config: Option<VaultConfig>,
        authorized: Vec<Address>,
        stats: AddressMap<PropertyVaultStats>,
        queue_head: u64,
        queue_tail: u64,
        requests: Vec<LiquidationRequest>,
    ) -> (r: Result<VaultContract, VaultError>)
        requires
            stats.inv(),
        ensures
            ({
                let state = VaultState {
                    contract_address,
                    config,
                    authorized: authorized@,
                    stats: stats@,
                    queue_head,
                    queue_tail,
                    queue: requests_to_queue(requests@),
                };
                match r {
                    Ok(vault) => vault.inv() && vault@ == state && ids_ascend(requests@),
                    Err(e) => e == VaultError::InconsistentState && !(state.wf() && ids_ascend(
                        requests@,
                    )),
                }
            }),
    {
        let ghost state = VaultState {
            contract_address,
            config,
            authorized: authorized@,
            stats: stats@,
            queue_head,
            queue_tail,
            queue: requests_to_queue(requests@),
        };
        if queue_head > queue_tail {
            return Err(VaultError::InconsistentState);
        }
        match config {
            Some(c) => {
                if c.available < 0 || c.available > c.total_capacity || c.buffer_percentage < 10
                    || c.buffer_percentage > 25 {
                    return Err(VaultError::InconsistentState);
                }
                if !c.controlled_mode && queue_head != queue_tail {
                    return Err(VaultError::InconsistentState);
                }
            },
            None => {
                if queue_head != queue_tail || authorized.len() != 0 {
                    return Err(VaultError::InconsistentState);
                }
            },
        }
        if !all_distinct(&authorized) {
            return Err(VaultError::InconsistentState);
        }
        if !stats_match(&authorized, &stats) {
            return Err(VaultError::InconsistentState);
        }
        let queue = match build_queue(&requests, queue_head, queue_tail) {
            None => {
                proof {
                    if state.wf() && ids_ascend(requests@) {
                        lemma_queued_requests_in_range(requests@, queue_head, queue_tail);
                    }
                }
                return Err(VaultError::InconsistentState);
            },
            Some(q) => q,
        };
        proof {
            assert forall|id: u64| #[trigger] state.queue.contains_key(id) implies {
                &&& queue_head <= id < queue_tail
                &&& state.queue[id].request_id == id
                &&& state.queue[id].amount > 0
            } by {
                let k = choose|k: int|
                    0 <= k < requests@.len() && (#[trigger] requests@[k]).request_id == id;
                assert(state.queue[id] == requests@[k]);
            }
        }
        Ok(
            VaultContract {
                contract_address,
                config,
                authorized,
                stats,
                queue_head,
                queue_tail,
                queue,
            },
        )
    }
}

} // verus!
