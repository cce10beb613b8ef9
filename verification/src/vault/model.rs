//! The vault as a mathematical state machine: its state, what makes a state
//! well formed, and each operation as a function from a state and its inputs to
//! the next state and the events emitted, or to the error that refuses it.

use vstd::prelude::*;
use crate::address::Address;
use crate::arith::{deadline, fits_i128, mul_div, trunc_div};
use crate::vault::types::{
    LiquidationRequest, PropertyVaultStats, QueueStatus, VaultConfig, VaultError, VaultEvent,
};

verus! {

/// The whole state of a vault.
#[verifier::ext_equal]
pub struct VaultState {
    /// The vault's own identity.
    pub contract_address: Address,
    /// The configuration; `None` until the vault is initialised.
    pub config: Option<VaultConfig>,
    /// The authorised properties, in the order of their authorisation.
    pub authorized: Seq<Address>,
    /// The statistics record of each authorised property.
    pub stats: Map<Address, PropertyVaultStats>,
    /// The id at which the next drain starts.
    pub queue_head: u64,
    /// The id the next queued request gets.
    pub queue_tail: u64,
    /// The requests that wait, by id. An id in `queue_head..queue_tail` without
    /// an entry has been consumed.
    pub queue: Map<u64, LiquidationRequest>,
}

/// A successful operation: the state it leaves and the events it emitted, in
/// order.
#[verifier::ext_equal]
pub struct VaultStep {
    pub state: VaultState,
    pub events: Seq<VaultEvent>,
}

/// Where a walk over the queue stopped and what it changed on the way.
#[verifier::ext_equal]
pub struct QueueWalk {
    pub available: i128,
    pub stats: Map<Address, PropertyVaultStats>,
    pub queue: Map<u64, LiquidationRequest>,
    /// The first id the walk did not get past.
    pub cursor: u64,
    /// One `LiquidationExecuted` for each request paid, in queue order.
    pub events: Seq<VaultEvent>,
}

/// The part of the capacity that instant payouts may not touch:
/// `total_capacity * buffer_percentage / 100`, truncated; `None` when the
/// product overflows.
pub open spec fn buffer_threshold(total_capacity: i128, buffer_percentage: u32) -> Option<i128> {
    mul_div(total_capacity, buffer_percentage as i128, 100)
}

/// The record a property gets when it is authorised.
pub open spec fn fresh_stats(property: Address) -> PropertyVaultStats {
    PropertyVaultStats {
        property_contract: property,
        total_liquidated: 0,
        last_liquidation: 0,
        active_users: 0,
        cash_flow_monthly: 0,
    }
}

/// `stats` after a payout of `amount` at time `now`; `None` when the total
/// overflows.
pub open spec fn credited(stats: PropertyVaultStats, amount: i128, now: u64) -> Option<
    PropertyVaultStats,
> {
    if fits_i128(stats.total_liquidated + amount) {
        Some(
            PropertyVaultStats {
                property_contract: stats.property_contract,
                total_liquidated: (stats.total_liquidated + amount) as i128,
                last_liquidation: now,
                active_users: stats.active_users,
                cash_flow_monthly: stats.cash_flow_monthly,
            },
        )
    } else {
        None
    }
}

/// The statistics after a queued request of `property` is paid: its record is
/// credited if there is one, and nothing changes if there is none.
pub open spec fn credit_if_known(
    stats: Map<Address, PropertyVaultStats>,
    property: Address,
    amount: i128,
    now: u64,
) -> Option<Map<Address, PropertyVaultStats>> {
    if stats.contains_key(property) {
        match credited(stats[property], amount, now) {
            Some(s) => Some(stats.insert(property, s)),
            None => None,
        }
    } else {
        Some(stats)
    }
}

/// The sum of the amounts of the requests that wait under ids in `lo..hi`.
pub open spec fn queued_amount(queue: Map<u64, LiquidationRequest>, lo: u64, hi: u64) -> int
    decreases hi - lo,
{
    if lo >= hi {
        0
    } else {
        let last = (hi - 1) as u64;
        queued_amount(queue, lo, last) + if queue.contains_key(last) {
            queue[last].amount as int
        } else {
            0
        }
    }
}

/// The number of requests that wait under ids in `lo..hi`.
pub open spec fn queued_count(queue: Map<u64, LiquidationRequest>, lo: u64, hi: u64) -> int
    decreases hi - lo,
{
    if lo >= hi {
        0
    } else {
        let last = (hi - 1) as u64;
        queued_count(queue, lo, last) + if queue.contains_key(last) {
            1int
        } else {
            0
        }
    }
}

/// The monthly cash flow expected from the listed properties: the sum of their
/// records' `cash_flow_monthly`, taken in list order, where a term that would
/// overflow the running sum is left out.
pub open spec fn expected_cash_flow(
    authorized: Seq<Address>,
    stats: Map<Address, PropertyVaultStats>,
) -> i128
    decreases authorized.len(),
{
    if authorized.len() == 0 {
        0
    } else {
        let before = expected_cash_flow(authorized.drop_last(), stats);
        let property = authorized.last();
        if stats.contains_key(property) && fits_i128(before + stats[property].cash_flow_monthly) {
            (before + stats[property].cash_flow_monthly) as i128
        } else {
            before
        }
    }
}

/// The seconds that `amount` takes to accumulate at `monthly` per thirty days:
/// whole months, at most twelve, times the seconds of a month, as an unsigned
/// 64-bit number (a negative count wraps).
pub open spec fn accumulation_seconds(amount: i128, monthly: i128) -> u64
    recommends
        monthly > 0,
{
    let months = trunc_div(amount as int, monthly as int);
    let capped = if months > 12 {
        12
    } else {
        months
    };
    let seconds = if fits_i128(capped * 2_592_000) {
        capped * 2_592_000
    } else {
        2_592_000
    };
    (seconds % 0x1_0000_0000_0000_0000) as u64
}

/// When a request of `amount` is expected to be paid: ninety days from `now`
/// if no cash flow is expected, else after the months the cash flow needs.
pub open spec fn fulfillment_estimate(amount: i128, monthly: i128, now: u64) -> u64 {
    if monthly <= 0 {
        deadline(now, 7_776_000)
    } else {
        deadline(now, accumulation_seconds(amount, monthly))
    }
}

/// The walk of a drain pass: from `cursor` up to `tail`, consumed ids are
/// passed over, a request that fits above `threshold` is paid and removed, and
/// the first request that does not fit ends the walk.
pub open spec fn walk_queue(
    queue: Map<u64, LiquidationRequest>,
    stats: Map<Address, PropertyVaultStats>,
    available: i128,
    cursor: u64,
    tail: u64,
    threshold: i128,
    now: u64,
) -> Result<QueueWalk, VaultError>
    decreases tail - cursor,
{
    if cursor >= tail {
        Ok(QueueWalk { available, stats, queue, cursor, events: Seq::empty() })
    } else if !queue.contains_key(cursor) {
        walk_queue(queue, stats, available, (cursor + 1) as u64, tail, threshold, now)
    } else {
        let request = queue[cursor];
        if !fits_i128(threshold + request.amount) {
            Err(VaultError::Overflow)
        } else if available >= threshold + request.amount {
            if !fits_i128(available - request.amount) {
                Err(VaultError::Overflow)
            } else {
                match credit_if_known(stats, request.property, request.amount, now) {
                    None => Err(VaultError::Overflow),
                    Some(credited_stats) => after_payment(
                        VaultEvent::LiquidationExecuted(
                            request.property,
                            request.user,
                            request.amount,
                        ),
                        walk_queue(
                            queue.remove(cursor),
                            credited_stats,
                            (available - request.amount) as i128,
                            (cursor + 1) as u64,
                            tail,
                            threshold,
                            now,
                        ),
                    ),
                }
            }
        } else {
            Ok(QueueWalk { available, stats, queue, cursor, events: Seq::empty() })
        }
    }
}

/// The result of a walk that first emitted `event` and then went on as `rest`.
pub open spec fn after_payment(event: VaultEvent, rest: Result<QueueWalk, VaultError>) -> Result<
    QueueWalk,
    VaultError,
> {
    match rest {
        Err(e) => Err(e),
        Ok(w) => Ok(
            QueueWalk {
                available: w.available,
                stats: w.stats,
                queue: w.queue,
                cursor: w.cursor,
                events: seq![event] + w.events,
            },
        ),
    }
}

/// The requests that wait under ids in `lo..hi`, in id order.
pub open spec fn live_requests(queue: Map<u64, LiquidationRequest>, lo: u64, hi: u64) -> Seq<
    LiquidationRequest,
>
    decreases hi - lo,
{
    if lo >= hi {
        Seq::empty()
    } else {
        let last = (hi - 1) as u64;
        if queue.contains_key(last) {
            live_requests(queue, lo, last).push(queue[last])
        } else {
            live_requests(queue, lo, last)
        }
    }
}

/// Whether the request ids of a list strictly ascend.
pub open spec fn ids_ascend(requests: Seq<LiquidationRequest>) -> bool {
    forall|i: int, j: int|
        0 <= i < j < requests.len() ==> (#[trigger] requests[i]).request_id < (
        #[trigger] requests[j]).request_id
}

/// Whether every request of the list has an id in `head..tail` and a positive
/// amount.
pub open spec fn requests_in_range(requests: Seq<LiquidationRequest>, head: u64, tail: u64) -> bool {
    forall|i: int|
        0 <= i < requests.len() ==> head <= (#[trigger] requests[i]).request_id < tail
            && requests[i].amount > 0
}

/// Whether some request of the list has the id `id`.
pub open spec fn has_request(requests: Seq<LiquidationRequest>, id: u64) -> bool {
    exists|i: int| 0 <= i < requests.len() && (#[trigger] requests[i]).request_id == id
}

/// The queue that a list of requests with distinct ids stands for: each
/// request under its own id.
pub open spec fn requests_to_queue(requests: Seq<LiquidationRequest>) -> Map<
    u64,
    LiquidationRequest,
> {
    Map::new(
        |id: u64| has_request(requests, id),
        |id: u64|
            requests[choose|i: int|
                0 <= i < requests.len() && (#[trigger] requests[i]).request_id == id],
    )
}

/// What the vault pays out on an event: the amount of a `LiquidationExecuted`,
/// nothing on any other event.
pub open spec fn payout_of(event: VaultEvent) -> int {
    match event {
        VaultEvent::LiquidationExecuted(_, _, amount) => amount as int,
        _ => 0,
    }
}

/// What the vault pays out on a list of events.
pub open spec fn paid_out(events: Seq<VaultEvent>) -> int
    decreases events.len(),
{
    if events.len() == 0 {
        0
    } else {
        paid_out(events.drop_last()) + payout_of(events.last())
    }
}

/// Whether a configuration respects its bounds.
pub open spec fn config_wf(c: VaultConfig) -> bool {
    &&& 0 <= c.available <= c.total_capacity
    &&& 10 <= c.buffer_percentage <= 25
}

impl VaultState {
    /// A deployed vault before its initialisation.
    pub open spec fn uninitialized(contract_address: Address) -> VaultState {
        VaultState {
            contract_address,
            config: None,
            authorized: Seq::empty(),
            stats: Map::empty(),
            queue_head: 0,
            queue_tail: 0,
            queue: Map::empty(),
        }
    }

    /// What holds of every state the operations can reach.
    pub open spec fn wf(self) -> bool {
        &&& self.queue_head <= self.queue_tail
        &&& forall|id: u64| #[trigger]
            self.queue.contains_key(id) ==> {
                &&& self.queue_head <= id < self.queue_tail
                &&& self.queue[id].request_id == id
                &&& self.queue[id].amount > 0
            }
        &&& self.authorized.no_duplicates()
        &&& forall|a: Address| #[trigger]
            self.stats.contains_key(a) <==> self.authorized.contains(a)
        &&& forall|a: Address| #[trigger]
            self.stats.contains_key(a) ==> self.stats[a].property_contract == a
        &&& match self.config {
            Some(c) => config_wf(c) && (!c.controlled_mode ==> self.queue_head == self.queue_tail),
            None => self.queue_head == self.queue_tail && self.authorized.len() == 0,
        }
    }

    /// The same state with another configuration.
    pub open spec fn with_config(self, c: VaultConfig) -> VaultState {
        VaultState {
            contract_address: self.contract_address,
            config: Some(c),
            authorized: self.authorized,
            stats: self.stats,
            queue_head: self.queue_head,
            queue_tail: self.queue_tail,
            queue: self.queue,
        }
    }

    /// Whether `property` is on the authorised list.
    pub open spec fn is_authorized(self, property: Address) -> bool {
        self.authorized.contains(property)
    }

    /// The sum of the amounts of all queued requests.
    pub open spec fn queue_obligations(self) -> int {
        queued_amount(self.queue, self.queue_head, self.queue_tail)
    }

    /// The number of queued requests.
    pub open spec fn queue_length(self) -> int {
        queued_count(self.queue, self.queue_head, self.queue_tail)
    }

    /// The expected fulfilment date of a request of `amount` made at `now`.
    pub open spec fn estimate_fulfillment(self, amount: i128, now: u64) -> u64 {
        fulfillment_estimate(amount, expected_cash_flow(self.authorized, self.stats), now)
    }

    /// One-time initialisation.
    pub open spec fn initialize(self, admin: Address, stablecoin: Address) -> Result<
        VaultStep,
        VaultError,
    > {
        if self.config is Some {
            Err(VaultError::AlreadyInitialized)
        } else if stablecoin == self.contract_address {
            Err(VaultError::StablecoinIsVault)
        } else {
            Ok(
                VaultStep {
                    state: VaultState {
                        contract_address: self.contract_address,
                        config: Some(
                            VaultConfig {
                                admin,
                                stablecoin_address: stablecoin,
                                total_capacity: 0,
                                available: 0,
                                buffer_percentage: 15,
                                controlled_mode: false,
                                emergency_pause: false,
                            },
                        ),
                        authorized: Seq::empty(),
                        stats: self.stats,
                        queue_head: 0,
                        queue_tail: 0,
                        queue: self.queue,
                    },
                    events: seq![VaultEvent::Initialized(admin)],
                },
            )
        }
    }

    /// Puts `property` on the authorised list and gives it a zeroed record.
    pub open spec fn authorize_property(self, admin: Address, property: Address) -> Result<
        VaultStep,
        VaultError,
    > {
        match self.config {
            None => Err(VaultError::NotInitialized),
            Some(c) => if admin != c.admin {
                Err(VaultError::NotAdmin)
            } else if self.is_authorized(property) {
                Err(VaultError::AlreadyAuthorized)
            } else {
                Ok(
                    VaultStep {
                        state: VaultState {
                            contract_address: self.contract_address,
                            config: self.config,
                            authorized: self.authorized.push(property),
                            stats: self.stats.insert(property, fresh_stats(property)),
                            queue_head: self.queue_head,
                            queue_tail: self.queue_tail,
                            queue: self.queue,
                        },
                        events: seq![VaultEvent::PropertyAuthorized(admin, property)],
                    },
                )
            },
        }
    }

    /// A drain pass: in controlled mode, pays queued requests in id order while
    /// each fits above the buffer, stops at the first that does not, moves the
    /// head to where it stopped, and leaves controlled mode if nothing is left.
    pub open spec fn drain(self, now: u64) -> Result<VaultStep, VaultError> {
        match self.config {
            None => Err(VaultError::NotInitialized),
            Some(c) => if !c.controlled_mode {
                Ok(VaultStep { state: self, events: Seq::empty() })
            } else {
                match buffer_threshold(c.total_capacity, c.buffer_percentage) {
                    None => Err(VaultError::Overflow),
                    Some(threshold) => match walk_queue(
                        self.queue,
                        self.stats,
                        c.available,
                        self.queue_head,
                        self.queue_tail,
                        threshold,
                        now,
                    ) {
                        Err(e) => Err(e),
                        Ok(w) => Ok(
                            VaultStep {
                                state: VaultState {
                                    contract_address: self.contract_address,
                                    config: Some(
                                        VaultConfig {
                                            admin: c.admin,
                                            stablecoin_address: c.stablecoin_address,
                                            total_capacity: c.total_capacity,
                                            available: w.available,
                                            buffer_percentage: c.buffer_percentage,
                                            controlled_mode: w.cursor < self.queue_tail,
                                            emergency_pause: c.emergency_pause,
                                        },
                                    ),
                                    authorized: self.authorized,
                                    stats: w.stats,
                                    queue_head: w.cursor,
                                    queue_tail: self.queue_tail,
                                    queue: w.queue,
                                },
                                events: if w.cursor < self.queue_tail {
                                    w.events
                                } else {
                                    w.events.push(VaultEvent::ControlledModeDeactivated(now))
                                },
                            },
                        ),
                    },
                }
            },
        }
    }

    /// Why a deposit of `amount` by `admin`, who holds `admin_balance`, is
    /// refused before any stablecoin moves; `None` if it may go ahead.
    pub open spec fn funding_refusal(self, admin: Address, amount: i128, admin_balance: i128) -> Option<
        VaultError,
    > {
        match self.config {
            None => Some(VaultError::NotInitialized),
            Some(c) => if admin != c.admin {
                Some(VaultError::NotAdmin)
            } else if amount <= 0 {
                Some(VaultError::InvalidAmount)
            } else if c.emergency_pause {
                Some(VaultError::EmergencyPaused)
            } else if admin_balance < amount {
                Some(VaultError::InsufficientAdminBalance)
            } else {
                None
            },
        }
    }

    /// A deposit of `amount` by the admin, given the admin's balance before the
    /// transfer and the vault's balance before and after it. The transfer is
    /// checked against the two vault balances; capacity and available liquidity
    /// grow by `amount`; then the queue is drained.
    pub open spec fn fund_vault(
        self,
        admin: Address,
        amount: i128,
        admin_balance: i128,
        vault_balance_before: i128,
        vault_balance_after: i128,
        now: u64,
    ) -> Result<VaultStep, VaultError> {
        match self.funding_refusal(admin, amount, admin_balance) {
            Some(e) => Err(e),
            None => {
                let c = self.config->0;
                if !fits_i128(vault_balance_before + amount) {
                    Err(VaultError::Overflow)
                } else if vault_balance_after != vault_balance_before + amount {
                    Err(VaultError::TransferVerificationFailed)
                } else if !fits_i128(c.total_capacity + amount) || !fits_i128(
                    c.available + amount,
                ) {
                    Err(VaultError::Overflow)
                } else {
                    let funded = self.with_config(
                        VaultConfig {
                            admin: c.admin,
                            stablecoin_address: c.stablecoin_address,
                            total_capacity: (c.total_capacity + amount) as i128,
                            available: (c.available + amount) as i128,
                            buffer_percentage: c.buffer_percentage,
                            controlled_mode: c.controlled_mode,
                            emergency_pause: c.emergency_pause,
                        },
                    );
                    match funded.drain(now) {
                        Err(e) => Err(e),
                        Ok(step) => Ok(
                            VaultStep {
                                state: step.state,
                                events: step.events.push(
                                    VaultEvent::Funded(
                                        admin,
                                        amount,
                                        (c.total_capacity + amount) as i128,
                                    ),
                                ),
                            },
                        ),
                    }
                }
            },
        }
    }

    /// Why a withdrawal of `amount` by `admin` is refused before any stablecoin
    /// moves, given the stablecoin the vault holds; `None` if it may go ahead.
    /// What stays available must cover the buffer plus every queued request.
    pub open spec fn withdrawal_refusal(self, admin: Address, amount: i128, vault_balance: i128) -> Option<
        VaultError,
    > {
        match self.config {
            None => Some(VaultError::NotInitialized),
            Some(c) => if admin != c.admin {
                Some(VaultError::NotAdmin)
            } else if amount <= 0 {
                Some(VaultError::InvalidAmount)
            } else if c.emergency_pause {
                Some(VaultError::EmergencyPaused)
            } else {
                match buffer_threshold(c.total_capacity, c.buffer_percentage) {
                    None => Some(VaultError::Overflow),
                    Some(buffer) => if !fits_i128(self.queue_obligations()) || !fits_i128(
                        buffer + self.queue_obligations(),
                    ) {
                        Some(VaultError::Overflow)
                    } else if !fits_i128(c.available - amount) {
                        Some(VaultError::InsufficientFunds)
                    } else if c.available - amount < buffer + self.queue_obligations() {
                        Some(VaultError::BufferViolation)
                    } else if vault_balance < amount {
                        Some(VaultError::InsufficientVaultBalance)
                    } else {
                        None
                    },
                }
            },
        }
    }

    /// A withdrawal of `amount` by the admin, given the vault's balance before
    /// and after the transfer. Capacity and available liquidity both shrink by
    /// `amount`.
    pub open spec fn withdraw_liquidity(
        self,
        admin: Address,
        amount: i128,
        vault_balance_before: i128,
        vault_balance_after: i128,
    ) -> Result<VaultStep, VaultError> {
        match self.withdrawal_refusal(admin, amount, vault_balance_before) {
            Some(e) => Err(e),
            None => {
                let c = self.config->0;
                if !fits_i128(vault_balance_before - amount) {
                    Err(VaultError::Overflow)
                } else if vault_balance_after != vault_balance_before - amount {
                    Err(VaultError::WithdrawalVerificationFailed)
                } else if !fits_i128(c.total_capacity - amount) {
                    Err(VaultError::Overflow)
                } else {
                    Ok(
                        VaultStep {
                            state: self.with_config(
                                VaultConfig {
                                    admin: c.admin,
                                    stablecoin_address: c.stablecoin_address,
                                    total_capacity: (c.total_capacity - amount) as i128,
                                    available: (c.available - amount) as i128,
                                    buffer_percentage: c.buffer_percentage,
                                    controlled_mode: c.controlled_mode,
                                    emergency_pause: c.emergency_pause,
                                },
                            ),
                            events: seq![
                                VaultEvent::LiquidityWithdrawn(
                                    admin,
                                    amount,
                                    (c.available - amount) as i128,
                                ),
                            ],
                        },
                    )
                }
            },
        }
    }

    /// Stops all funding, withdrawal and liquidation.
    pub open spec fn emergency_pause(self, admin: Address, now: u64) -> Result<
        VaultStep,
        VaultError,
    > {
        match self.config {
            None => Err(VaultError::NotInitialized),
            Some(c) => if admin != c.admin {
                Err(VaultError::NotAdmin)
            } else if c.emergency_pause {
                Err(VaultError::AlreadyPaused)
            } else {
                Ok(
                    VaultStep {
                        state: self.with_config(
                            VaultConfig {
                                admin: c.admin,
                                stablecoin_address: c.stablecoin_address,
                                total_capacity: c.total_capacity,
                                available: c.available,
                                buffer_percentage: c.buffer_percentage,
                                controlled_mode: c.controlled_mode,
                                emergency_pause: true,
                            },
                        ),
                        events: seq![VaultEvent::EmergencyPaused(admin, now)],
                    },
                )
            },
        }
    }

    /// Lifts the pause, then drains the queue.
    pub open spec fn emergency_unpause(self, admin: Address, now: u64) -> Result<
        VaultStep,
        VaultError,
    > {
        match self.config {
            None => Err(VaultError::NotInitialized),
            Some(c) => if admin != c.admin {
                Err(VaultError::NotAdmin)
            } else if !c.emergency_pause {
                Err(VaultError::NotPaused)
            } else {
                let resumed = self.with_config(
                    VaultConfig {
                        admin: c.admin,
                        stablecoin_address: c.stablecoin_address,
                        total_capacity: c.total_capacity,
                        available: c.available,
                        buffer_percentage: c.buffer_percentage,
                        controlled_mode: c.controlled_mode,
                        emergency_pause: false,
                    },
                );
                match resumed.drain(now) {
                    Err(e) => Err(e),
                    Ok(step) => Ok(
                        VaultStep {
                            state: step.state,
                            events: step.events.push(VaultEvent::EmergencyUnpaused(admin, now)),
                        },
                    ),
                }
            },
        }
    }

    /// Sets the buffer percentage; the queue is not looked at again.
    pub open spec fn update_buffer_percentage(self, admin: Address, new_percentage: u32) -> Result<
        VaultStep,
        VaultError,
    > {
        match self.config {
            None => Err(VaultError::NotInitialized),
            Some(c) => if admin != c.admin {
                Err(VaultError::NotAdmin)
            } else if new_percentage < 10 || new_percentage > 25 {
                Err(VaultError::InvalidBufferPercentage)
            } else {
                Ok(
                    VaultStep {
                        state: self.with_config(
                            VaultConfig {
                                admin: c.admin,
                                stablecoin_address: c.stablecoin_address,
                                total_capacity: c.total_capacity,
                                available: c.available,
                                buffer_percentage: new_percentage,
                                controlled_mode: c.controlled_mode,
                                emergency_pause: c.emergency_pause,
                            },
                        ),
                        events: seq![VaultEvent::BufferAdjusted(new_percentage)],
                    },
                )
            },
        }
    }

    /// Whether a request of `amount` is paid at once: the vault is not in
    /// controlled mode and what is available covers the buffer threshold plus
    /// the amount.
    pub open spec fn takes_instant_path(c: VaultConfig, threshold: i128, amount: i128) -> bool {
        c.available >= threshold + amount && !c.controlled_mode
    }

    /// The instant path: `amount` leaves the available liquidity and is
    /// credited to the property's record.
    pub open spec fn pay_instantly(
        self,
        c: VaultConfig,
        property: Address,
        user: Address,
        amount: i128,
        vault_balance: i128,
        now: u64,
    ) -> Result<VaultStep, VaultError> {
        if vault_balance < amount {
            Err(VaultError::InsufficientVaultBalance)
        } else if !fits_i128(c.available - amount) {
            Err(VaultError::Overflow)
        } else {
            let record = if self.stats.contains_key(property) {
                self.stats[property]
            } else {
                fresh_stats(property)
            };
            match credited(record, amount, now) {
                None => Err(VaultError::Overflow),
                Some(updated) => Ok(
                    VaultStep {
                        state: VaultState {
                            contract_address: self.contract_address,
                            config: Some(
                                VaultConfig {
                                    admin: c.admin,
                                    stablecoin_address: c.stablecoin_address,
                                    total_capacity: c.total_capacity,
                                    available: (c.available - amount) as i128,
                                    buffer_percentage: c.buffer_percentage,
                                    controlled_mode: c.controlled_mode,
                                    emergency_pause: c.emergency_pause,
                                },
                            ),
                            authorized: self.authorized,
                            stats: self.stats.insert(property, updated),
                            queue_head: self.queue_head,
                            queue_tail: self.queue_tail,
                            queue: self.queue,
                        },
                        events: seq![VaultEvent::LiquidationExecuted(property, user, amount)],
                    },
                ),
            }
        }
    }

    /// The queue path: the vault enters controlled mode if it was not in it,
    /// and the request is stored under the tail id.
    pub open spec fn enqueue(
        self,
        c: VaultConfig,
        property: Address,
        user: Address,
        amount: i128,
        now: u64,
    ) -> Result<VaultStep, VaultError> {
        if self.queue_tail == u64::MAX {
            Err(VaultError::QueueOverflow)
        } else {
            let request = LiquidationRequest {
                request_id: self.queue_tail,
                property,
                user,
                amount,
                timestamp: now,
                estimated_fulfill_date: self.estimate_fulfillment(amount, now),
            };
            let queued = VaultEvent::LiquidationQueued(self.queue_tail, property, user, amount);
            Ok(
                VaultStep {
                    state: VaultState {
                        contract_address: self.contract_address,
                        config: Some(
                            VaultConfig {
                                admin: c.admin,
                                stablecoin_address: c.stablecoin_address,
                                total_capacity: c.total_capacity,
                                available: c.available,
                                buffer_percentage: c.buffer_percentage,
                                controlled_mode: true,
                                emergency_pause: c.emergency_pause,
                            },
                        ),
                        authorized: self.authorized,
                        stats: self.stats,
                        queue_head: self.queue_head,
                        queue_tail: (self.queue_tail + 1) as u64,
                        queue: self.queue.insert(self.queue_tail, request),
                    },
                    events: if c.controlled_mode {
                        seq![queued]
                    } else {
                        seq![VaultEvent::ControlledModeActivated(now), queued]
                    },
                },
            )
        }
    }

    /// A property's request to pay `amount` to `user`, given the stablecoin the
    /// vault holds. It is paid at once or queued; too little liquidity is no
    /// error.
    pub open spec fn request_liquidation(
        self,
        property: Address,
        user: Address,
        amount: i128,
        vault_balance: i128,
        now: u64,
    ) -> Result<VaultStep, VaultError> {
        match self.config {
            None => Err(VaultError::NotInitialized),
            Some(c) => if c.emergency_pause {
                Err(VaultError::EmergencyPaused)
            } else if amount <= 0 {
                Err(VaultError::InvalidAmount)
            } else if !self.is_authorized(property) {
                Err(VaultError::PropertyNotAuthorized)
            } else {
                match buffer_threshold(c.total_capacity, c.buffer_percentage) {
                    None => Err(VaultError::Overflow),
                    Some(threshold) => if !fits_i128(threshold + amount) {
                        Err(VaultError::Overflow)
                    } else if Self::takes_instant_path(c, threshold, amount) {
                        self.pay_instantly(c, property, user, amount, vault_balance, now)
                    } else {
                        self.enqueue(c, property, user, amount, now)
                    },
                }
            },
        }
    }

    /// The summary of the queue at time `now`.
    pub open spec fn queue_status(self, now: u64) -> Result<QueueStatus, VaultError> {
        match self.config {
            None => Err(VaultError::NotInitialized),
            Some(c) => if !fits_i128(self.queue_obligations()) || self.queue_length() > u32::MAX {
                Err(VaultError::Overflow)
            } else {
                let monthly = expected_cash_flow(self.authorized, self.stats);
                Ok(
                    QueueStatus {
                        total_queued: self.queue_length() as u32,
                        total_amount: self.queue_obligations() as i128,
                        controlled_mode: c.controlled_mode,
                        head_index: self.queue_head,
                        tail_index: self.queue_tail,
                        estimated_clear_time: if self.queue_obligations() == 0 || monthly <= 0 {
                            now
                        } else {
                            deadline(
                                now,
                                accumulation_seconds(self.queue_obligations() as i128, monthly),
                            )
                        },
                    },
                )
            },
        }
    }
}

} // verus!
