//! What holds of a property's state machine: well-formedness is kept by every
//! operation, the loyalty tier is capped at four, compounding decides whether
//! the principal grows, and the admin's rollover is never a shortcut.

use vstd::prelude::*;
use crate::address::Address;
use crate::property::model::{position_wf, rolled_over, total_yield, PropertyState, PropertyStep};
use crate::property::types::{PropertyError, PropertyMetadata, RoiConfig, UserPosition};

verus! {

/// The loyalty tier cap: a rollover raises the rollover count by one and
/// leaves the tier at `min(count, 4)`; from the fourth rollover on the tier is
/// 4.
pub proof fn lemma_loyalty_tier_capped(p: UserPosition, epoch_yield: i128, now: u64)
    requires
        rolled_over(p, epoch_yield, now) is Some,
    ensures
        ({
            let next = rolled_over(p, epoch_yield, now)->0;
            &&& next.consecutive_rollovers == p.consecutive_rollovers + 1
            &&& position_wf(next)
            &&& next.loyalty_tier <= 4
            &&& next.consecutive_rollovers >= 4 ==> next.loyalty_tier == 4
            &&& next.consecutive_rollovers < 4 ==> next.loyalty_tier == next.consecutive_rollovers
        }),
{
}

/// The compounding branch of a rollover: without compounding the principal
/// stays as it is, with compounding it grows by the epoch's yield; either way
/// the total yield earned grows by the epoch's yield, the tokens and the
/// initial investment stay, and the new epoch begins at the time of the
/// rollover.
pub proof fn lemma_rollover_compounding_branch(p: UserPosition, epoch_yield: i128, now: u64)
    requires
        rolled_over(p, epoch_yield, now) is Some,
    ensures
        ({
            let next = rolled_over(p, epoch_yield, now)->0;
            &&& !p.compounding_enabled ==> next.current_principal == p.current_principal
            &&& p.compounding_enabled ==> next.current_principal == p.current_principal
                + epoch_yield
            &&& next.total_yield_earned == p.total_yield_earned + epoch_yield
            &&& next.tokens == p.tokens
            &&& next.initial_investment == p.initial_investment
            &&& next.compounding_enabled == p.compounding_enabled
            &&& next.epoch_start == now
        }),
{
}

/// The admin's rollover is a fallback, never a shortcut: whenever the admin
/// may roll a position over, the user may too, and the two rollovers leave the
/// same state.
pub proof fn lemma_admin_rollover_is_no_shortcut(
    s: PropertyState,
    admin: Address,
    user: Address,
    now: u64,
)
    requires
        s.admin_rollover_position(admin, user, now) is Ok,
    ensures
        s.rollover_position(user, now) is Ok,
        s.rollover_position(user, now)->Ok_0.state == s.admin_rollover_position(
            admin,
            user,
            now,
        )->Ok_0.state,
{
}

/// The three phases of an open position: before the epoch is complete nobody
/// may act; from then until the grace period ends the user may act and the
/// position is in its grace period; after that the admin may act as well. The
/// views agree with the gates of the operations: where a view says that
/// somebody may act, the operation is not refused for its time.
pub proof fn lemma_epoch_phases(s: PropertyState, admin: Address, user: Address, now: u64)
    requires
        s.positions.contains_key(user),
    ensures
        s.can_take_action(user, now) <==> now >= s.positions[user].epoch_start + 2_592_000,
        s.can_admin_rollover(user, now) <==> now >= s.positions[user].epoch_start + 2_592_000
            + 86_400,
        s.is_in_grace_period(user, now) <==> (s.can_take_action(user, now)
            && !s.can_admin_rollover(user, now)),
        s.can_admin_rollover(user, now) ==> s.can_take_action(user, now),
        !s.can_take_action(user, now) && s.roi_config is Some ==> {
            let r = s.rollover_position(user, now);
            r == Err::<PropertyStep, PropertyError>(PropertyError::EpochNotComplete) || r == Err::<
                PropertyStep,
                PropertyError,
            >(PropertyError::Overflow)
        },
        s.can_take_action(user, now) && s.roi_config is Some ==> s.rollover_position(user, now)
            == s.apply_rollover(user, s.positions[user], s.roi_config->0, now, false),
        s.can_admin_rollover(user, now) && s.roi_config is Some && s.admin == Some(admin)
            ==> s.admin_rollover_position(admin, user, now) == s.apply_rollover(
            user,
            s.positions[user],
            s.roi_config->0,
            now,
            true,
        ),
{
}

/// A yield is never made up: where a product of the principal and a monthly
/// rate does not fit in 128 bits, or the loyalty rate does not fit in 32 bits,
/// there is no yield, and rollover, liquidation and preview are refused with
/// `Overflow`, whatever the time.
pub proof fn lemma_overflowing_yield_is_refused(s: PropertyState, admin: Address, user: Address, now: u64)
    requires
        s.positions.contains_key(user),
        s.roi_config is Some,
        !crate::property::model::yield_fits(s.positions[user], s.roi_config->0),
    ensures
        total_yield(s.positions[user], s.roi_config->0) is None,
        s.rollover_position(user, now) is Err,
        s.admin_rollover_position(admin, user, now) is Err,
        s.liquidate_position(user, now) is Err,
        s.preview_yield(user, now) == Err::<
            crate::property::types::YieldPreview,
            PropertyError,
        >(PropertyError::Overflow),
        s.apply_rollover(user, s.positions[user], s.roi_config->0, now, false) == Err::<
            PropertyStep,
            PropertyError,
        >(PropertyError::Overflow),
{
}

/// Every operation keeps a property well formed.
pub proof fn lemma_operations_keep_wf(
    s: PropertyState,
    actor: Address,
    user: Address,
    metadata: PropertyMetadata,
    roi: RoiConfig,
    token_amount: i128,
    enable_compounding: bool,
    compliant: bool,
    buyer_balance: i128,
    now: u64,
)
    requires
        s.wf(),
    ensures
        s.initialize(actor, metadata) matches Ok(step) ==> step.state.wf(),
        s.update_roi_config(actor, roi) matches Ok(step) ==> step.state.wf(),
        s.purchase_tokens(
            user,
            token_amount,
            enable_compounding,
            compliant,
            buyer_balance,
            now,
        ) matches Ok(step) ==> step.state.wf(),
        s.rollover_position(user, now) matches Ok(step) ==> step.state.wf(),
        s.admin_rollover_position(actor, user, now) matches Ok(step) ==> step.state.wf(),
        s.liquidate_position(user, now) matches Ok(step) ==> step.state.wf(),
{
}

/// Whether two states are the same as far as `user` is concerned: they agree
/// on everything but the positions of other users.
pub open spec fn same_for(a: PropertyState, b: PropertyState, user: Address) -> bool {
    &&& a.contract_address == b.contract_address
    &&& a.metadata == b.metadata
    &&& a.admin == b.admin
    &&& a.roi_config == b.roi_config
    &&& a.total_active_tokens == b.total_active_tokens
    &&& a.positions.contains_key(user) <==> b.positions.contains_key(user)
    &&& a.positions.contains_key(user) ==> a.positions[user] == b.positions[user]
}

/// Whether two outcomes are the same as far as `user` is concerned.
pub open spec fn same_outcome_for(
    a: Result<PropertyStep, PropertyError>,
    b: Result<PropertyStep, PropertyError>,
    user: Address,
) -> bool {
    match (a, b) {
        (Ok(x), Ok(y)) => x.event == y.event && same_for(x.state, y.state, user),
        (Err(e), Err(f)) => e == f,
        _ => false,
    }
}

/// An operation on one user's position looks at no other position: on two
/// states that are the same as far as that user is concerned it has the same
/// outcome as far as that user is concerned. A property may therefore be put
/// together from its own record and the one position an operation is about.
pub proof fn lemma_operations_look_at_one_position(
    a: PropertyState,
    b: PropertyState,
    admin: Address,
    user: Address,
    token_amount: i128,
    enable_compounding: bool,
    compliant: bool,
    buyer_balance: i128,
    now: u64,
)
    requires
        same_for(a, b, user),
    ensures
        same_outcome_for(
            a.purchase_tokens(
                user,
                token_amount,
                enable_compounding,
                compliant,
                buyer_balance,
                now,
            ),
            b.purchase_tokens(
                user,
                token_amount,
                enable_compounding,
                compliant,
                buyer_balance,
                now,
            ),
            user,
        ),
        same_outcome_for(a.rollover_position(user, now), b.rollover_position(user, now), user),
        same_outcome_for(
            a.admin_rollover_position(admin, user, now),
            b.admin_rollover_position(admin, user, now),
            user,
        ),
        same_outcome_for(a.liquidate_position(user, now), b.liquidate_position(user, now), user),
        a.preview_yield(user, now) == b.preview_yield(user, now),
        a.can_take_action(user, now) == b.can_take_action(user, now),
        a.is_in_grace_period(user, now) == b.is_in_grace_period(user, now),
        a.can_admin_rollover(user, now) == b.can_admin_rollover(user, now),
{
}

/// An operation on one user's position leaves every other position as it
/// was.
pub proof fn lemma_operations_touch_one_position(
    s: PropertyState,
    admin: Address,
    user: Address,
    other: Address,
    token_amount: i128,
    enable_compounding: bool,
    compliant: bool,
    buyer_balance: i128,
    now: u64,
)
    requires
        other != user,
    ensures
        s.purchase_tokens(
            user,
            token_amount,
            enable_compounding,
            compliant,
            buyer_balance,
            now,
        ) matches Ok(step) ==> same_for(step.state.with_positions(
            step.state.positions,
            s.total_active_tokens,
        ), s, other),
        s.rollover_position(user, now) matches Ok(step) ==> same_for(step.state, s, other),
        s.admin_rollover_position(admin, user, now) matches Ok(step) ==> same_for(
            step.state,
            s,
            other,
        ),
        s.liquidate_position(user, now) matches Ok(step) ==> same_for(
            step.state.with_positions(step.state.positions, s.total_active_tokens),
            s,
            other,
        ),
{
}

/// The active tokens are kept in step with the positions: a purchase adds the
/// tokens bought, a liquidation takes out the tokens of the position that is
/// closed, and a rollover changes neither the total nor the tokens of the
/// position.
pub proof fn lemma_active_tokens_accounting(
    s: PropertyState,
    admin: Address,
    user: Address,
    token_amount: i128,
    enable_compounding: bool,
    compliant: bool,
    buyer_balance: i128,
    now: u64,
)
    ensures
        s.purchase_tokens(
            user,
            token_amount,
            enable_compounding,
            compliant,
            buyer_balance,
            now,
        ) matches Ok(step) ==> step.state.total_active_tokens == s.total_active_tokens
            + token_amount && step.state.positions[user].tokens == token_amount
            && !s.positions.contains_key(user),
        s.liquidate_position(user, now) matches Ok(step) ==> step.state.total_active_tokens
            == s.total_active_tokens - s.positions[user].tokens
            && !step.state.positions.contains_key(user),
        s.rollover_position(user, now) matches Ok(step) ==> step.state.total_active_tokens
            == s.total_active_tokens && step.state.positions[user].tokens
            == s.positions[user].tokens,
        s.admin_rollover_position(admin, user, now) matches Ok(step)
            ==> step.state.total_active_tokens == s.total_active_tokens
            && step.state.positions[user].tokens == s.positions[user].tokens,
{
}

/// What a liquidation pays: the principal plus the yield of one more epoch on
/// that principal, as its event says.
pub proof fn lemma_liquidation_payout(s: PropertyState, user: Address, now: u64)
    requires
        s.liquidate_position(user, now) is Ok,
    ensures
        ({
            let p = s.positions[user];
            let roi = s.roi_config->0;
            &&& total_yield(p, roi) is Some
            &&& now >= p.epoch_start + 2_592_000
            &&& s.liquidate_position(user, now)->Ok_0.event
                == crate::property::types::PropertyEvent::PositionLiquidated(
                user,
                p.current_principal,
                total_yield(p, roi)->0,
                (p.current_principal + total_yield(p, roi)->0) as i128,
                p.consecutive_rollovers,
            )
            &&& crate::arith::fits_i128(p.current_principal + total_yield(p, roi)->0)
        }),
{
}

} // verus!
