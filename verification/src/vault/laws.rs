//! What holds of the vault's state machine: well-formedness is kept by every
//! operation, instant payouts respect the buffer, the queue is strictly first
//! in, first out, and a drain pass repeated without new liquidity does nothing.

use vstd::prelude::*;
use crate::address::Address;
use crate::arith::fits_i128;
use crate::vault::model::{
    buffer_threshold, credit_if_known, paid_out, payout_of, queued_amount, walk_queue, QueueWalk,
    VaultState, VaultStep,
};
use crate::vault::types::{
    LiquidationRequest, PropertyVaultStats, VaultConfig, VaultError, VaultEvent,
};

verus! {

/// For a capacity that is not negative and a percentage of at most 100, the
/// buffer threshold lies between 0 and the capacity.
pub proof fn lemma_buffer_threshold_bounds(total_capacity: i128, buffer_percentage: u32)
    requires
        0 <= total_capacity,
        buffer_percentage <= 100,
    ensures
        match buffer_threshold(total_capacity, buffer_percentage) {
            Some(t) => 0 <= t <= total_capacity && t == (total_capacity * buffer_percentage) / 100,
            None => total_capacity * buffer_percentage > i128::MAX,
        },
{
    let c = total_capacity as int;
    let p = buffer_percentage as int;
    assert(0 <= c * p <= c * 100) by (nonlinear_arith)
        requires
            0 <= c,
            0 <= p <= 100,
    ;
    assert((buffer_percentage as i128) as int == p);
    if fits_i128(c * p) {
        assert(0 <= (c * p) / 100 <= c) by (nonlinear_arith)
            requires
                0 <= c * p <= c * 100,
        ;
    }
}

/// What a walk needs of the queue and the statistics it starts from.
pub open spec fn walk_ready(
    queue: Map<u64, LiquidationRequest>,
    stats: Map<Address, PropertyVaultStats>,
    cursor: u64,
    tail: u64,
    threshold: i128,
) -> bool {
    &&& cursor <= tail
    &&& 0 <= threshold
    &&& forall|id: u64| #[trigger]
        queue.contains_key(id) ==> {
            &&& cursor <= id < tail
            &&& queue[id].request_id == id
            &&& queue[id].amount > 0
        }
    &&& forall|a: Address| #[trigger]
        stats.contains_key(a) ==> stats[a].property_contract == a
}

/// What holds of the place where a walk stopped.
pub open spec fn walk_result_ok(
    queue: Map<u64, LiquidationRequest>,
    stats: Map<Address, PropertyVaultStats>,
    available: i128,
    cursor: u64,
    tail: u64,
    threshold: i128,
    w: QueueWalk,
) -> bool {
    &&& cursor <= w.cursor <= tail
    &&& forall|id: u64| #[trigger]
        w.queue.contains_key(id) <==> (queue.contains_key(id) && id >= w.cursor)
    &&& forall|id: u64| #[trigger] w.queue.contains_key(id) ==> w.queue[id] == queue[id]
    &&& w.available <= available
    &&& w.events.len() > 0 ==> w.available >= threshold
    &&& w.events.len() == 0 ==> w.available == available && w.stats == stats
    &&& forall|a: Address| #[trigger] w.stats.contains_key(a) <==> stats.contains_key(a)
    &&& forall|a: Address| #[trigger]
        w.stats.contains_key(a) ==> w.stats[a].property_contract == a
    &&& w.cursor < tail ==> {
        &&& w.queue.contains_key(w.cursor)
        &&& fits_i128(threshold + w.queue[w.cursor].amount)
        &&& w.available < threshold + w.queue[w.cursor].amount
    }
}

/// A walk fails only by overflow. Where it succeeds, it stops at an id up to
/// the tail; exactly the requests from there on still wait, unchanged; every
/// payment left the available liquidity at or above the threshold; and if it
/// stopped before the tail, the request it stopped at waits and does not fit.
pub proof fn lemma_walk_queue(
    queue: Map<u64, LiquidationRequest>,
    stats: Map<Address, PropertyVaultStats>,
    available: i128,
    cursor: u64,
    tail: u64,
    threshold: i128,
    now: u64,
)
    requires
        walk_ready(queue, stats, cursor, tail, threshold),
    ensures
        match walk_queue(queue, stats, available, cursor, tail, threshold, now) {
            Err(e) => e == VaultError::Overflow,
            Ok(w) => walk_result_ok(queue, stats, available, cursor, tail, threshold, w),
        },
    decreases tail - cursor,
{
    if cursor >= tail {
    } else if !queue.contains_key(cursor) {
        let next = (cursor + 1) as u64;
        assert(walk_ready(queue, stats, next, tail, threshold)) by {
            assert forall|id: u64| #[trigger] queue.contains_key(id) implies next <= id by {
                assert(id != cursor);
            }
        }
        lemma_walk_queue(queue, stats, available, next, tail, threshold, now);
    } else {
        let request = queue[cursor];
        if fits_i128(threshold + request.amount) && available >= threshold + request.amount
            && fits_i128(available - request.amount) {
            match credit_if_known(stats, request.property, request.amount, now) {
                None => {},
                Some(credited_stats) => {
                    let next = (cursor + 1) as u64;
                    let rest_queue = queue.remove(cursor);
                    let rest_available = (available - request.amount) as i128;
                    assert(walk_ready(rest_queue, credited_stats, next, tail, threshold));
                    lemma_walk_queue(
                        rest_queue,
                        credited_stats,
                        rest_available,
                        next,
                        tail,
                        threshold,
                        now,
                    );
                    match walk_queue(
                        rest_queue,
                        credited_stats,
                        rest_available,
                        next,
                        tail,
                        threshold,
                        now,
                    ) {
                        Err(e) => {},
                        Ok(rest) => {
                            let w = walk_queue(
                                queue,
                                stats,
                                available,
                                cursor,
                                tail,
                                threshold,
                                now,
                            )->Ok_0;
                            assert(w.events.len() > 0);
                            assert(w.queue == rest.queue);
                            assert forall|id: u64| #[trigger]
                                w.queue.contains_key(id) <==> (queue.contains_key(id) && id
                                    >= w.cursor) by {
                                assert(rest.queue.contains_key(id) <==> (rest_queue.contains_key(id)
                                    && id >= rest.cursor));
                            }
                            assert forall|id: u64| #[trigger]
                                w.queue.contains_key(id) implies w.queue[id] == queue[id] by {
                                assert(rest.queue.contains_key(id));
                            }
                            if rest.events.len() == 0 {
                                assert(rest.available == rest_available);
                            }
                            assert forall|a: Address| #[trigger]
                                w.stats.contains_key(a) <==> stats.contains_key(a) by {
                                assert(rest.stats.contains_key(a) <==> credited_stats.contains_key(
                                    a,
                                ));
                            }
                        },
                    }
                },
            }
        }
    }
}


/// The sum of queued amounts is never negative when every queued amount is
/// positive, and it grows with the range.
pub proof fn lemma_queued_amount_monotone(
    queue: Map<u64, LiquidationRequest>,
    lo: u64,
    mid: u64,
    hi: u64,
)
    requires
        lo <= mid <= hi,
        forall|id: u64| #[trigger] queue.contains_key(id) ==> queue[id].amount > 0,
    ensures
        0 <= crate::vault::model::queued_amount(queue, lo, mid)
            <= crate::vault::model::queued_amount(queue, lo, hi),
    decreases hi - lo,
{
    if lo < hi {
        let last = (hi - 1) as u64;
        if mid == hi {
            lemma_queued_amount_monotone(queue, lo, last, last);
        } else {
            lemma_queued_amount_monotone(queue, lo, mid, last);
        }
    }
}

/// The number of queued requests in a range is between 0 and the width of the
/// range, and grows with the range.
pub proof fn lemma_queued_count_monotone(
    queue: Map<u64, LiquidationRequest>,
    lo: u64,
    mid: u64,
    hi: u64,
)
    requires
        lo <= mid <= hi,
    ensures
        0 <= crate::vault::model::queued_count(queue, lo, mid)
            <= crate::vault::model::queued_count(queue, lo, hi) <= hi - lo,
    decreases hi - lo,
{
    if lo < hi {
        let last = (hi - 1) as u64;
        if mid == hi {
            lemma_queued_count_monotone(queue, lo, last, last);
        } else {
            lemma_queued_count_monotone(queue, lo, mid, last);
        }
    }
}

/// Initialisation keeps a vault well formed.
pub proof fn lemma_initialize_keeps_wf(s: VaultState, admin: Address, stablecoin: Address)
    requires
        s.wf(),
    ensures
        s.initialize(admin, stablecoin) matches Ok(step) ==> step.state.wf(),
{
    if let Ok(step) = s.initialize(admin, stablecoin) {
        assert forall|a: Address| !#[trigger] s.stats.contains_key(a) by {
            if s.stats.contains_key(a) {
                assert(s.authorized.contains(a));
            }
        }
        assert(step.state.authorized.no_duplicates());
    }
}

/// Authorising a property keeps a vault well formed.
pub proof fn lemma_authorize_keeps_wf(s: VaultState, admin: Address, property: Address)
    requires
        s.wf(),
    ensures
        s.authorize_property(admin, property) matches Ok(step) ==> step.state.wf(),
{
    if let Ok(step) = s.authorize_property(admin, property) {
        let after = s.authorized.push(property);
        assert forall|i: int, j: int| 0 <= i < after.len() && 0 <= j < after.len() && i != j implies after[i] != after[j] by {
            if i < s.authorized.len() && j < s.authorized.len() {
            } else if i < s.authorized.len() {
                assert(s.authorized.contains(s.authorized[i]));
            } else {
                assert(s.authorized.contains(s.authorized[j]));
            }
        }
        assert forall|a: Address| #[trigger]
            step.state.stats.contains_key(a) <==> after.contains(a) by {
            if after.contains(a) {
                let i = choose|i: int| 0 <= i < after.len() && after[i] == a;
                if i < s.authorized.len() {
                    assert(s.authorized.contains(a));
                    assert(s.stats.contains_key(a));
                }
            }
            if step.state.stats.contains_key(a) {
                if a == property {
                    assert(after[s.authorized.len() as int] == a);
                } else {
                    assert(s.stats.contains_key(a));
                    assert(s.authorized.contains(a));
                    let i = choose|i: int| 0 <= i < s.authorized.len() && s.authorized[i] == a;
                    assert(after[i] == a);
                }
            }
        }
    }
}

/// A drain pass keeps a vault well formed, fails only by overflow, and every
/// payment it makes leaves the available liquidity at or above the buffer
/// threshold.
pub proof fn lemma_drain_keeps_wf(s: VaultState, now: u64)
    requires
        s.wf(),
        s.config is Some,
    ensures
        match s.drain(now) {
            Err(e) => e == VaultError::Overflow,
            Ok(step) => {
                &&& step.state.wf()
                &&& step.state.config is Some
                &&& step.state.authorized == s.authorized
                &&& step.state.queue_tail == s.queue_tail
                &&& step.state.config->0.total_capacity == s.config->0.total_capacity
                &&& step.state.config->0.buffer_percentage == s.config->0.buffer_percentage
                &&& step.state.config->0.available <= s.config->0.available
                &&& step.state.config->0.available != s.config->0.available ==> (buffer_threshold(
                    s.config->0.total_capacity,
                    s.config->0.buffer_percentage,
                ) matches Some(t) && step.state.config->0.available >= t)
            },
        },
{
    let c = s.config->0;
    if c.controlled_mode {
        lemma_buffer_threshold_bounds(c.total_capacity, c.buffer_percentage);
        if let Some(threshold) = buffer_threshold(c.total_capacity, c.buffer_percentage) {
            assert(walk_ready(s.queue, s.stats, s.queue_head, s.queue_tail, threshold));
            lemma_walk_queue(
                s.queue,
                s.stats,
                c.available,
                s.queue_head,
                s.queue_tail,
                threshold,
                now,
            );
            if let Ok(w) = walk_queue(
                s.queue,
                s.stats,
                c.available,
                s.queue_head,
                s.queue_tail,
                threshold,
                now,
            ) {
                let step = s.drain(now)->Ok_0;
                assert(step.state.queue == w.queue);
                assert(step.state.stats == w.stats);
                assert forall|a: Address| #[trigger]
                    step.state.stats.contains_key(a) <==> step.state.authorized.contains(a) by {
                    assert(w.stats.contains_key(a) <==> s.stats.contains_key(a));
                }
                assert forall|id: u64| #[trigger] step.state.queue.contains_key(id) implies {
                    &&& step.state.queue_head <= id < step.state.queue_tail
                    &&& step.state.queue[id].request_id == id
                    &&& step.state.queue[id].amount > 0
                } by {
                    assert(s.queue.contains_key(id));
                }
            }
        }
    }
}

/// A deposit keeps a vault well formed.
pub proof fn lemma_fund_keeps_wf(
    s: VaultState,
    admin: Address,
    amount: i128,
    admin_balance: i128,
    vault_balance_before: i128,
    vault_balance_after: i128,
    now: u64,
)
    requires
        s.wf(),
    ensures
        s.fund_vault(
            admin,
            amount,
            admin_balance,
            vault_balance_before,
            vault_balance_after,
            now,
        ) matches Ok(step) ==> step.state.wf(),
{
    if let Ok(step) = s.fund_vault(
        admin,
        amount,
        admin_balance,
        vault_balance_before,
        vault_balance_after,
        now,
    ) {
        let c = s.config->0;
        let funded = s.with_config(
            VaultConfig {
                admin: c.admin,
                stablecoin_address: c.stablecoin_address,
                total_capacity: (c.total_capacity + amount) as i128,
                available: (c.available + amount) as i128,
                buffer_percentage: c.buffer_percentage,
                controlled_mode: c.controlled_mode,
                emergency_pause: c.emergency_pause,
            },
        );
        assert(funded.wf());
        lemma_drain_keeps_wf(funded, now);
    }
}

/// A withdrawal keeps a vault well formed.
pub proof fn lemma_withdraw_keeps_wf(
    s: VaultState,
    admin: Address,
    amount: i128,
    vault_balance_before: i128,
    vault_balance_after: i128,
)
    requires
        s.wf(),
    ensures
        s.withdraw_liquidity(
            admin,
            amount,
            vault_balance_before,
            vault_balance_after,
        ) matches Ok(step) ==> step.state.wf(),
{
    if let Ok(step) = s.withdraw_liquidity(
        admin,
        amount,
        vault_balance_before,
        vault_balance_after,
    ) {
        let c = s.config->0;
        lemma_buffer_threshold_bounds(c.total_capacity, c.buffer_percentage);
        lemma_queued_amount_monotone(s.queue, s.queue_head, s.queue_head, s.queue_tail);
    }
}

/// Pausing, unpausing and changing the buffer percentage keep a vault well
/// formed.
pub proof fn lemma_admin_switches_keep_wf(s: VaultState, admin: Address, percentage: u32, now: u64)
    requires
        s.wf(),
    ensures
        s.emergency_pause(admin, now) matches Ok(step) ==> step.state.wf(),
        s.emergency_unpause(admin, now) matches Ok(step) ==> step.state.wf(),
        s.update_buffer_percentage(admin, percentage) matches Ok(step) ==> step.state.wf(),
{
    if let Ok(step) = s.emergency_unpause(admin, now) {
        let c = s.config->0;
        let resumed = s.with_config(
            VaultConfig {
                admin: c.admin,
                stablecoin_address: c.stablecoin_address,
                total_capacity: c.total_capacity,
                available: c.available,
                buffer_percentage: c.buffer_percentage,
                controlled_mode: c.controlled_mode,
                emergency_pause: false,
            },
        );
        assert(resumed.wf());
        lemma_drain_keeps_wf(resumed, now);
    }
}

/// A liquidation request, paid or queued, keeps a vault well formed.
pub proof fn lemma_request_keeps_wf(
    s: VaultState,
    property: Address,
    user: Address,
    amount: i128,
    vault_balance: i128,
    now: u64,
)
    requires
        s.wf(),
    ensures
        s.request_liquidation(property, user, amount, vault_balance, now) matches Ok(step)
            ==> step.state.wf(),
{
    if let Ok(step) = s.request_liquidation(property, user, amount, vault_balance, now) {
        let c = s.config->0;
        lemma_buffer_threshold_bounds(c.total_capacity, c.buffer_percentage);
        let threshold = buffer_threshold(c.total_capacity, c.buffer_percentage)->0;
        assert(s.stats.contains_key(property));
        if VaultState::takes_instant_path(c, threshold, amount) {
            assert forall|a: Address| #[trigger]
                step.state.stats.contains_key(a) <==> step.state.authorized.contains(a) by {
                assert(s.stats.contains_key(a) <==> s.authorized.contains(a));
            }
        } else {
            assert forall|id: u64| #[trigger] step.state.queue.contains_key(id) implies {
                &&& step.state.queue_head <= id < step.state.queue_tail
                &&& step.state.queue[id].request_id == id
                &&& step.state.queue[id].amount > 0
            } by {
                if id != s.queue_tail {
                    assert(s.queue.contains_key(id));
                }
            }
        }
    }
}

/// The buffer invariant: after a request is paid at once, what is still
/// available is at least `total_capacity * buffer_percentage / 100`.
pub proof fn lemma_instant_payout_keeps_buffer(
    s: VaultState,
    property: Address,
    user: Address,
    amount: i128,
    vault_balance: i128,
    now: u64,
)
    requires
        s.wf(),
        s.request_liquidation(property, user, amount, vault_balance, now) is Ok,
        s.request_liquidation(property, user, amount, vault_balance, now)->Ok_0.events
            == seq![VaultEvent::LiquidationExecuted(property, user, amount)],
    ensures
        ({
            let after = s.request_liquidation(
                property,
                user,
                amount,
                vault_balance,
                now,
            )->Ok_0.state.config->0;
            &&& after.total_capacity == s.config->0.total_capacity
            &&& after.buffer_percentage == s.config->0.buffer_percentage
            &&& after.available == s.config->0.available - amount
            &&& after.available >= (after.total_capacity * after.buffer_percentage) / 100
        }),
{
    let c = s.config->0;
    lemma_buffer_threshold_bounds(c.total_capacity, c.buffer_percentage);
    let threshold = buffer_threshold(c.total_capacity, c.buffer_percentage)->0;
    if !VaultState::takes_instant_path(c, threshold, amount) {
        let step = s.enqueue(c, property, user, amount, now)->Ok_0;
        let queued = VaultEvent::LiquidationQueued(s.queue_tail, property, user, amount);
        if c.controlled_mode {
            assert(step.events[0] == queued);
        } else {
            assert(step.events.len() == 2);
        }
        assert(false);
    }
}

/// Every payment a drain pass makes respects the buffer too: if the pass
/// changed what is available, what is left is at least
/// `total_capacity * buffer_percentage / 100`.
pub proof fn lemma_drain_keeps_buffer(s: VaultState, now: u64)
    requires
        s.wf(),
        s.drain(now) is Ok,
    ensures
        ({
            let before = s.config->0;
            let after = s.drain(now)->Ok_0.state.config->0;
            after.available == before.available || after.available >= (after.total_capacity
                * after.buffer_percentage) / 100
        }),
{
    let c = s.config->0;
    lemma_buffer_threshold_bounds(c.total_capacity, c.buffer_percentage);
    lemma_drain_keeps_wf(s, now);
}

/// The admission boundary: outside controlled mode, with `t` the buffer
/// threshold, a request for exactly `available - t` takes the instant path and
/// a request for one unit more takes the queue path.
pub proof fn lemma_admission_boundary(
    s: VaultState,
    property: Address,
    user: Address,
    vault_balance: i128,
    now: u64,
)
    requires
        s.wf(),
        s.config matches Some(c) && !c.emergency_pause && !c.controlled_mode,
        s.is_authorized(property),
        buffer_threshold(s.config->0.total_capacity, s.config->0.buffer_percentage) is Some,
        s.config->0.available - buffer_threshold(
            s.config->0.total_capacity,
            s.config->0.buffer_percentage,
        )->0 > 0,
        s.config->0.available < i128::MAX,
    ensures
        ({
            let c = s.config->0;
            let t = buffer_threshold(c.total_capacity, c.buffer_percentage)->0;
            let exact = (c.available - t) as i128;
            let above = (c.available - t + 1) as i128;
            &&& s.request_liquidation(property, user, exact, vault_balance, now)
                == s.pay_instantly(c, property, user, exact, vault_balance, now)
            &&& s.request_liquidation(property, user, above, vault_balance, now) == s.enqueue(
                c,
                property,
                user,
                above,
                now,
            )
            &&& s.queue_tail < u64::MAX ==> (s.enqueue(c, property, user, above, now) matches Ok(
                step,
            ) && step.state.queue.contains_key(s.queue_tail) && step.state.config->0.available
                == c.available)
        }),
{
    let c = s.config->0;
    lemma_buffer_threshold_bounds(c.total_capacity, c.buffer_percentage);
}

/// A walk that starts at consumed ids and then meets a request that does not
/// fit stops there, having changed nothing.
pub proof fn lemma_walk_blocked(
    queue: Map<u64, LiquidationRequest>,
    stats: Map<Address, PropertyVaultStats>,
    available: i128,
    cursor: u64,
    first: u64,
    tail: u64,
    threshold: i128,
    now: u64,
)
    requires
        cursor <= first < tail,
        forall|id: u64| cursor <= id < first ==> !queue.contains_key(id),
        queue.contains_key(first),
        fits_i128(threshold + queue[first].amount),
        available < threshold + queue[first].amount,
    ensures
        walk_queue(queue, stats, available, cursor, tail, threshold, now) == Ok::<
            QueueWalk,
            VaultError,
        >(QueueWalk { available, stats, queue, cursor: first, events: Seq::empty() }),
    decreases first - cursor,
{
    if cursor < first {
        lemma_walk_blocked(
            queue,
            stats,
            available,
            (cursor + 1) as u64,
            first,
            tail,
            threshold,
            now,
        );
    }
}

/// Head-of-line blocking: in controlled mode, if the first request that waits
/// does not fit above the buffer, a drain pass pays nothing, whatever waits
/// behind it: it emits no event and changes neither the queue, nor what is
/// available, nor the statistics; only the head moves up to that request.
pub proof fn lemma_head_of_line_blocking(s: VaultState, first: u64, now: u64)
    requires
        s.wf(),
        s.config matches Some(c) && c.controlled_mode,
        s.queue_head <= first < s.queue_tail,
        forall|id: u64| s.queue_head <= id < first ==> !s.queue.contains_key(id),
        s.queue.contains_key(first),
        buffer_threshold(s.config->0.total_capacity, s.config->0.buffer_percentage) matches Some(t)
            && fits_i128(t + s.queue[first].amount) && s.config->0.available < t
            + s.queue[first].amount,
    ensures
        s.drain(now) == Ok::<VaultStep, VaultError>(
            VaultStep {
                state: VaultState {
                    contract_address: s.contract_address,
                    config: s.config,
                    authorized: s.authorized,
                    stats: s.stats,
                    queue_head: first,
                    queue_tail: s.queue_tail,
                    queue: s.queue,
                },
                events: Seq::empty(),
            },
        ),
{
    let c = s.config->0;
    let t = buffer_threshold(c.total_capacity, c.buffer_percentage)->0;
    lemma_walk_blocked(
        s.queue,
        s.stats,
        c.available,
        s.queue_head,
        first,
        s.queue_tail,
        t,
        now,
    );
}

/// A drain pass is idempotent: a second pass right after a first one, with no
/// liquidity added in between, pays nothing and changes nothing.
pub proof fn lemma_drain_idempotent(s: VaultState, now: u64, later: u64)
    requires
        s.wf(),
        s.drain(now) is Ok,
    ensures
        s.drain(now)->Ok_0.state.drain(later) == Ok::<VaultStep, VaultError>(
            VaultStep { state: s.drain(now)->Ok_0.state, events: Seq::empty() },
        ),
{
    let c = s.config->0;
    let first = s.drain(now)->Ok_0.state;
    if c.controlled_mode {
        lemma_buffer_threshold_bounds(c.total_capacity, c.buffer_percentage);
        let t = buffer_threshold(c.total_capacity, c.buffer_percentage)->0;
        lemma_walk_queue(s.queue, s.stats, c.available, s.queue_head, s.queue_tail, t, now);
        let w = walk_queue(s.queue, s.stats, c.available, s.queue_head, s.queue_tail, t, now)->Ok_0;
        if w.cursor < s.queue_tail {
            lemma_walk_blocked(
                w.queue,
                w.stats,
                w.available,
                w.cursor,
                w.cursor,
                s.queue_tail,
                t,
                later,
            );
            let second = first.drain(later)->Ok_0;
            assert(second.state.config == first.config);
            assert(second.state == first);
        }
    }
}

/// What is paid out on a list of events that begins with `first` is what is
/// paid out on `first` plus what is paid out on the rest.
pub proof fn lemma_paid_out_first(first: VaultEvent, rest: Seq<VaultEvent>)
    ensures
        paid_out(seq![first] + rest) == payout_of(first) + paid_out(rest),
    decreases rest.len(),
{
    let whole = seq![first] + rest;
    if rest.len() == 0 {
        assert(whole.drop_last() =~= Seq::<VaultEvent>::empty());
        assert(paid_out(whole.drop_last()) == 0);
    } else {
        assert(whole.drop_last() =~= seq![first] + rest.drop_last());
        assert(whole.last() == rest.last());
        lemma_paid_out_first(first, rest.drop_last());
    }
}

/// What is paid out on a list of events with one more event appended is what
/// is paid out on the list plus what is paid out on that event.
pub proof fn lemma_paid_out_push(events: Seq<VaultEvent>, last: VaultEvent)
    ensures
        paid_out(events.push(last)) == paid_out(events) + payout_of(last),
{
    assert(events.push(last).drop_last() =~= events);
}

/// The queued amounts of a range are those of its lower part plus those of
/// its upper part.
pub proof fn lemma_queued_amount_split(
    queue: Map<u64, LiquidationRequest>,
    lo: u64,
    mid: u64,
    hi: u64,
)
    requires
        lo <= mid <= hi,
    ensures
        queued_amount(queue, lo, hi) == queued_amount(queue, lo, mid) + queued_amount(
            queue,
            mid,
            hi,
        ),
    decreases hi - mid,
{
    if mid < hi {
        lemma_queued_amount_split(queue, lo, mid, (hi - 1) as u64);
    }
}

/// Two queues that agree on the ids of a range have the same queued amounts in
/// it.
pub proof fn lemma_queued_amount_frame(
    a: Map<u64, LiquidationRequest>,
    b: Map<u64, LiquidationRequest>,
    lo: u64,
    hi: u64,
)
    requires
        forall|id: u64|
            #![trigger a.contains_key(id)]
            #![trigger b.contains_key(id)]
            lo <= id < hi ==> (a.contains_key(id) <==> b.contains_key(id)) && (a.contains_key(id)
                ==> a[id] == b[id]),
    ensures
        queued_amount(a, lo, hi) == queued_amount(b, lo, hi),
    decreases hi - lo,
{
    if lo < hi {
        lemma_queued_amount_frame(a, b, lo, (hi - 1) as u64);
    }
}

/// A walk pays out exactly the requests it got past: the available liquidity
/// shrinks by the queued amounts between where the walk began and where it
/// stopped, and that is what its events pay out.
pub proof fn lemma_walk_pays_what_it_passes(
    queue: Map<u64, LiquidationRequest>,
    stats: Map<Address, PropertyVaultStats>,
    available: i128,
    cursor: u64,
    tail: u64,
    threshold: i128,
    now: u64,
)
    requires
        walk_ready(queue, stats, cursor, tail, threshold),
    ensures
        walk_queue(queue, stats, available, cursor, tail, threshold, now) matches Ok(w) ==> {
            &&& cursor <= w.cursor <= tail
            &&& available - w.available == queued_amount(queue, cursor, w.cursor)
            &&& available - w.available == paid_out(w.events)
        },
    decreases tail - cursor,
{
    lemma_walk_queue(queue, stats, available, cursor, tail, threshold, now);
    if let Ok(w) = walk_queue(queue, stats, available, cursor, tail, threshold, now) {
        if cursor >= tail {
        } else {
            let next = (cursor + 1) as u64;
            assert(queued_amount(queue, cursor, cursor) == 0);
            if !queue.contains_key(cursor) {
                lemma_queued_amount_split(queue, cursor, next, w.cursor);
                assert(walk_ready(queue, stats, next, tail, threshold)) by {
                    assert forall|id: u64| #[trigger] queue.contains_key(id) implies next
                        <= id by {
                        assert(id != cursor);
                    }
                }
                lemma_walk_pays_what_it_passes(
                    queue,
                    stats,
                    available,
                    next,
                    tail,
                    threshold,
                    now,
                );
            } else {
                let request = queue[cursor];
                if available >= threshold + request.amount {
                    let credited_stats = credit_if_known(
                        stats,
                        request.property,
                        request.amount,
                        now,
                    )->0;
                    let rest_queue = queue.remove(cursor);
                    let rest_available = (available - request.amount) as i128;
                    assert(walk_ready(rest_queue, credited_stats, next, tail, threshold));
                    lemma_walk_pays_what_it_passes(
                        rest_queue,
                        credited_stats,
                        rest_available,
                        next,
                        tail,
                        threshold,
                        now,
                    );
                    let rest = walk_queue(
                        rest_queue,
                        credited_stats,
                        rest_available,
                        next,
                        tail,
                        threshold,
                        now,
                    )->Ok_0;
                    lemma_queued_amount_split(queue, cursor, next, w.cursor);
                    lemma_queued_amount_frame(rest_queue, queue, next, w.cursor);
                    lemma_paid_out_first(
                        VaultEvent::LiquidationExecuted(
                            request.property,
                            request.user,
                            request.amount,
                        ),
                        rest.events,
                    );
                } else {
                    assert(w.cursor == cursor);
                }
            }
        }
    }
}

/// A drain pass keeps the books: what leaves the available liquidity is what
/// its events pay out, and it is what leaves the queue, so that the available
/// liquidity less the queued obligations stays what it was.
pub proof fn lemma_drain_keeps_the_books(s: VaultState, now: u64)
    requires
        s.wf(),
        s.drain(now) is Ok,
    ensures
        ({
            let step = s.drain(now)->Ok_0;
            &&& s.config->0.available - step.state.config->0.available == paid_out(step.events)
            &&& step.state.config->0.available - step.state.queue_obligations()
                == s.config->0.available - s.queue_obligations()
        }),
{
    let c = s.config->0;
    if c.controlled_mode {
        lemma_buffer_threshold_bounds(c.total_capacity, c.buffer_percentage);
        let t = buffer_threshold(c.total_capacity, c.buffer_percentage)->0;
        lemma_walk_queue(s.queue, s.stats, c.available, s.queue_head, s.queue_tail, t, now);
        lemma_walk_pays_what_it_passes(
            s.queue,
            s.stats,
            c.available,
            s.queue_head,
            s.queue_tail,
            t,
            now,
        );
        let w = walk_queue(s.queue, s.stats, c.available, s.queue_head, s.queue_tail, t, now)->Ok_0;
        lemma_queued_amount_split(s.queue, s.queue_head, w.cursor, s.queue_tail);
        lemma_queued_amount_frame(w.queue, s.queue, w.cursor, s.queue_tail);
        lemma_paid_out_push(w.events, VaultEvent::ControlledModeDeactivated(now));
    } else {
        assert(paid_out(Seq::<VaultEvent>::empty()) == 0);
    }
}

/// The books of every operation: the available liquidity grows by what is
/// deposited and shrinks by what is withdrawn and by what the events pay out;
/// nothing else changes it. So a caller that moves exactly the deposits, the
/// withdrawals and the payouts of the events keeps the vault's stablecoin in
/// step with its books.
pub proof fn lemma_liquidity_accounting(
    s: VaultState,
    actor: Address,
    user: Address,
    amount: i128,
    b1: i128,
    b2: i128,
    b3: i128,
    percentage: u32,
    now: u64,
)
    requires
        s.wf(),
    ensures
        s.request_liquidation(actor, user, amount, b1, now) matches Ok(step)
            ==> step.state.config->0.available == s.config->0.available - paid_out(step.events),
        s.fund_vault(actor, amount, b1, b2, b3, now) matches Ok(step)
            ==> step.state.config->0.available == s.config->0.available + amount - paid_out(
            step.events,
        ),
        s.withdraw_liquidity(actor, amount, b1, b2) matches Ok(step)
            ==> step.state.config->0.available == s.config->0.available - amount && paid_out(
            step.events,
        ) == 0,
        s.emergency_unpause(actor, now) matches Ok(step) ==> step.state.config->0.available
            == s.config->0.available - paid_out(step.events),
        s.emergency_pause(actor, now) matches Ok(step) ==> step.state.config->0.available
            == s.config->0.available && paid_out(step.events) == 0,
        s.update_buffer_percentage(actor, percentage) matches Ok(step)
            ==> step.state.config->0.available == s.config->0.available && paid_out(step.events)
            == 0,
        s.authorize_property(actor, user) matches Ok(step) ==> step.state.config->0.available
            == s.config->0.available && paid_out(step.events) == 0,
{
    let none = Seq::<VaultEvent>::empty();
    assert(paid_out(none) == 0);
    assert forall|e: VaultEvent| paid_out(#[trigger] none.push(e)) == payout_of(e) by {
        lemma_paid_out_push(none, e);
    }
    assert forall|e: VaultEvent, f: VaultEvent| paid_out(#[trigger] none.push(e).push(f))
        == payout_of(e) + payout_of(f) by {
        lemma_paid_out_push(none, e);
        lemma_paid_out_push(none.push(e), f);
    }
    if let Ok(step) = s.request_liquidation(actor, user, amount, b1, now) {
        let c = s.config->0;
        let queued = VaultEvent::LiquidationQueued(s.queue_tail, actor, user, amount);
        let activated = VaultEvent::ControlledModeActivated(now);
        let executed = VaultEvent::LiquidationExecuted(actor, user, amount);
        assert(seq![queued] =~= none.push(queued));
        assert(seq![activated, queued] =~= none.push(activated).push(queued));
        assert(seq![executed] =~= none.push(executed));
    }
    if let Ok(step) = s.fund_vault(actor, amount, b1, b2, b3, now) {
        let c = s.config->0;
        let funded = s.with_config(
            VaultConfig {
                admin: c.admin,
                stablecoin_address: c.stablecoin_address,
                total_capacity: (c.total_capacity + amount) as i128,
                available: (c.available + amount) as i128,
                buffer_percentage: c.buffer_percentage,
                controlled_mode: c.controlled_mode,
                emergency_pause: c.emergency_pause,
            },
        );
        assert(funded.wf());
        lemma_drain_keeps_the_books(funded, now);
        lemma_paid_out_push(
            funded.drain(now)->Ok_0.events,
            VaultEvent::Funded(actor, amount, (c.total_capacity + amount) as i128),
        );
    }
    if let Ok(step) = s.emergency_unpause(actor, now) {
        let c = s.config->0;
        let resumed = s.with_config(
            VaultConfig {
                admin: c.admin,
                stablecoin_address: c.stablecoin_address,
                total_capacity: c.total_capacity,
                available: c.available,
                buffer_percentage: c.buffer_percentage,
                controlled_mode: c.controlled_mode,
                emergency_pause: false,
            },
        );
        assert(resumed.wf());
        lemma_drain_keeps_the_books(resumed, now);
        lemma_paid_out_push(
            resumed.drain(now)->Ok_0.events,
            VaultEvent::EmergencyUnpaused(actor, now),
        );
    }
    if let Ok(step) = s.withdraw_liquidity(actor, amount, b1, b2) {
        let e = VaultEvent::LiquidityWithdrawn(
            actor,
            amount,
            (s.config->0.available - amount) as i128,
        );
        assert(seq![e] =~= none.push(e));
    }
    if let Ok(step) = s.emergency_pause(actor, now) {
        let e = VaultEvent::EmergencyPaused(actor, now);
        assert(seq![e] =~= none.push(e));
    }
    if let Ok(step) = s.update_buffer_percentage(actor, percentage) {
        let e = VaultEvent::BufferAdjusted(percentage);
        assert(seq![e] =~= none.push(e));
    }
    if let Ok(step) = s.authorize_property(actor, user) {
        let e = VaultEvent::PropertyAuthorized(actor, user);
        assert(seq![e] =~= none.push(e));
    }
}

/// A withdrawal leaves the queue covered: after it, what is available is at
/// least the buffer of the capacity before the withdrawal plus every queued
/// amount.
pub proof fn lemma_withdrawal_leaves_queue_covered(
    s: VaultState,
    admin: Address,
    amount: i128,
    vault_balance_before: i128,
    vault_balance_after: i128,
)
    requires
        s.wf(),
        s.withdraw_liquidity(admin, amount, vault_balance_before, vault_balance_after) is Ok,
    ensures
        ({
            let after = s.withdraw_liquidity(
                admin,
                amount,
                vault_balance_before,
                vault_balance_after,
            )->Ok_0.state;
            &&& after.queue_obligations() == s.queue_obligations()
            &&& after.config->0.total_capacity == s.config->0.total_capacity - amount
            &&& after.config->0.available == s.config->0.available - amount
            &&& after.config->0.available >= (s.config->0.total_capacity
                * s.config->0.buffer_percentage) / 100 + s.queue_obligations()
        }),
{
    let c = s.config->0;
    lemma_buffer_threshold_bounds(c.total_capacity, c.buffer_percentage);
}

} // verus!
