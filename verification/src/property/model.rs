//! A property as a mathematical state machine: yield arithmetic, the epoch
//! gates, and each operation as a function from a state and its inputs to the
//! next state and the event emitted, or to the error that refuses it.

use vstd::prelude::*;
use crate::address::Address;
use crate::arith::{fits_i128, mul_div};
use crate::property::types::{
    PropertyError, PropertyEvent, PropertyMetadata, RoiConfig, UserPosition, YieldPreview,
};

verus! {

/// The yield of one month on `principal` at `monthly_rate_bps` basis points:
/// `principal * monthly_rate_bps / 10000`, truncated toward zero; `None` when
/// the product does not fit in 128 bits.
pub open spec fn yield_component(principal: i128, monthly_rate_bps: u32) -> Option<i128> {
    mul_div(principal, monthly_rate_bps as i128, 10_000)
}

/// The base yield of an epoch: the annual rate over twelve, truncated, applied
/// to the current principal.
pub open spec fn base_yield(p: UserPosition, roi: RoiConfig) -> Option<i128> {
    yield_component(p.current_principal, roi.annual_rate_bps / 12)
}

/// The bonus for compounding: the annual bonus over twelve, truncated, applied
/// to the current principal; nothing without compounding.
pub open spec fn compounding_bonus(p: UserPosition, roi: RoiConfig) -> Option<i128> {
    if p.compounding_enabled {
        yield_component(p.current_principal, roi.compounding_bonus_bps / 12)
    } else {
        Some(0)
    }
}

/// Whether the loyalty rate of `p` under `roi` can be computed in 32 bits.
pub open spec fn loyalty_rate_fits(p: UserPosition, roi: RoiConfig) -> bool {
    p.loyalty_tier * roi.loyalty_bonus_bps <= u32::MAX
}

/// The bonus for loyalty: the tier times the per-tier bonus, over twelve,
/// truncated, applied to the current principal; `None` when the rate does not
/// fit in 32 bits.
pub open spec fn loyalty_bonus(p: UserPosition, roi: RoiConfig) -> Option<i128> {
    if loyalty_rate_fits(p, roi) {
        yield_component(
            p.current_principal,
            ((p.loyalty_tier * roi.loyalty_bonus_bps) / 12) as u32,
        )
    } else {
        None
    }
}

/// Whether each of the three yield components of `p` under `roi` can be
/// computed without overflow.
pub open spec fn yield_fits(p: UserPosition, roi: RoiConfig) -> bool {
    base_yield(p, roi) is Some && compounding_bonus(p, roi) is Some && loyalty_bonus(p, roi) is Some
}

/// The yield of an epoch: the sum of the three components; `None` when a
/// component or the sum overflows.
pub open spec fn total_yield(p: UserPosition, roi: RoiConfig) -> Option<i128> {
    match (base_yield(p, roi), compounding_bonus(p, roi), loyalty_bonus(p, roi)) {
        (Some(base), Some(compounding), Some(loyalty)) => if !fits_i128(base + compounding)
            || !fits_i128(base + compounding + loyalty) {
            None
        } else {
            Some((base + compounding + loyalty) as i128)
        },
        _ => None,
    }
}

/// The loyalty tier after `rollovers` consecutive rollovers.
pub open spec fn tier_for(rollovers: u32) -> u32 {
    if rollovers >= 4 {
        4
    } else {
        rollovers
    }
}

/// The invariant of a position: its tier is the one its rollovers give.
pub open spec fn position_wf(p: UserPosition) -> bool {
    p.loyalty_tier == tier_for(p.consecutive_rollovers)
}

/// Whether every position of `positions` keeps the invariant of a position.
pub open spec fn positions_wf(positions: Map<Address, UserPosition>) -> bool {
    forall|user: Address| #[trigger]
        positions.contains_key(user) ==> position_wf(positions[user])
}

/// Whether the epoch that began at `epoch_start` is complete at `now`: thirty
/// days have passed. An epoch whose end is past the end of time is never
/// complete.
pub open spec fn epoch_complete(epoch_start: u64, now: u64) -> bool {
    now >= epoch_start + 2_592_000
}

/// Whether the grace period after the epoch that began at `epoch_start` is
/// over at `now`: thirty days and one more have passed.
pub open spec fn grace_over(epoch_start: u64, now: u64) -> bool {
    now >= epoch_start + 2_592_000 + 86_400
}

/// The position a purchase of `tokens` for `cost` opens at `now`.
pub open spec fn opened_position(tokens: i128, cost: i128, compounding: bool, now: u64) -> UserPosition {
    UserPosition {
        tokens,
        initial_investment: cost,
        current_principal: cost,
        compounding_enabled: compounding,
        epoch_start: now,
        consecutive_rollovers: 0,
        total_yield_earned: 0,
        loyalty_tier: 0,
    }
}

/// The position after a rollover at `now` that earned `epoch_yield`: the
/// principal grows by the yield if and only if compounding is on, the yield is
/// added to the total earned, the rollover count grows by one, the tier follows
/// the count, and a new epoch begins. `None` when a sum overflows.
pub open spec fn rolled_over(p: UserPosition, epoch_yield: i128, now: u64) -> Option<UserPosition> {
    let principal = if p.compounding_enabled {
        p.current_principal + epoch_yield
    } else {
        p.current_principal as int
    };
    if !fits_i128(principal) || !fits_i128(p.total_yield_earned + epoch_yield)
        || p.consecutive_rollovers == u32::MAX {
        None
    } else {
        Some(
            UserPosition {
                tokens: p.tokens,
                initial_investment: p.initial_investment,
                current_principal: principal as i128,
                compounding_enabled: p.compounding_enabled,
                epoch_start: now,
                consecutive_rollovers: (p.consecutive_rollovers + 1) as u32,
                total_yield_earned: (p.total_yield_earned + epoch_yield) as i128,
                loyalty_tier: tier_for((p.consecutive_rollovers + 1) as u32),
            },
        )
    }
}

/// The whole days in `elapsed` seconds, as a 32-bit number (a larger count
/// wraps).
pub open spec fn whole_days(elapsed: u64) -> u32 {
    ((elapsed / 86_400) % 0x1_0000_0000) as u32
}

/// The preview of the running epoch of `p` at `now`; `None` when the yield
/// overflows.
pub open spec fn preview_of(p: UserPosition, roi: RoiConfig, now: u64) -> Option<YieldPreview> {
    match total_yield(p, roi) {
        None => None,
        Some(total) => {
            let elapsed = if now >= p.epoch_start {
                (now - p.epoch_start) as u64
            } else {
                0
            };
            let days = whole_days(elapsed);
            Some(
                YieldPreview {
                    base_yield: base_yield(p, roi)->0,
                    compounding_bonus: compounding_bonus(p, roi)->0,
                    loyalty_bonus: loyalty_bonus(p, roi)->0,
                    total_yield: total,
                    days_elapsed: days,
                    days_remaining: if days >= 30 {
                        0
                    } else {
                        (30 - days) as u32
                    },
                },
            )
        },
    }
}

/// The whole state of a property.
#[verifier::ext_equal]
pub struct PropertyState {
    /// The property's own identity.
    pub contract_address: Address,
    /// What the property is; `None` until it is initialised.
    pub metadata: Option<PropertyMetadata>,
    pub admin: Option<Address>,
    pub roi_config: Option<RoiConfig>,
    /// The tokens of all open positions.
    pub total_active_tokens: i128,
    /// The open positions, at most one per user.
    pub positions: Map<Address, UserPosition>,
}

/// A successful operation: the state it leaves and the event it emitted.
#[verifier::ext_equal]
pub struct PropertyStep {
    pub state: PropertyState,
    pub event: PropertyEvent,
}

impl PropertyState {
    /// A deployed property before its initialisation.
    pub open spec fn uninitialized(contract_address: Address) -> PropertyState {
        PropertyState {
            contract_address,
            metadata: None,
            admin: None,
            roi_config: None,
            total_active_tokens: 0,
            positions: Map::empty(),
        }
    }

    /// What holds of every state the operations can reach.
    pub open spec fn wf(self) -> bool {
        &&& self.metadata is Some <==> self.admin is Some
        &&& self.metadata is Some <==> self.roi_config is Some
        &&& self.metadata matches Some(m) ==> m.total_supply > 0 && m.decimals <= 7 && m.token_price
            > 0
        &&& positions_wf(self.positions)
    }

    /// The same state with other positions and another token total.
    pub open spec fn with_positions(
        self,
        positions: Map<Address, UserPosition>,
        total_active_tokens: i128,
    ) -> PropertyState {
        PropertyState {
            contract_address: self.contract_address,
            metadata: self.metadata,
            admin: self.admin,
            roi_config: self.roi_config,
            total_active_tokens,
            positions,
        }
    }

    /// One-time initialisation, with the default rates 800 / 200 / 25 basis
    /// points and no expected cash flow.
    pub open spec fn initialize(self, admin: Address, metadata: PropertyMetadata) -> Result<
        PropertyStep,
        PropertyError,
    > {
        if self.metadata is Some {
            Err(PropertyError::AlreadyInitialized)
        } else if metadata.total_supply <= 0 {
            Err(PropertyError::InvalidTotalSupply)
        } else if metadata.decimals > 7 {
            Err(PropertyError::InvalidDecimals)
        } else if metadata.token_price <= 0 {
            Err(PropertyError::InvalidTokenPrice)
        } else {
            Ok(
                PropertyStep {
                    state: PropertyState {
                        contract_address: self.contract_address,
                        metadata: Some(metadata),
                        admin: Some(admin),
                        roi_config: Some(
                            RoiConfig {
                                annual_rate_bps: 800,
                                compounding_bonus_bps: 200,
                                loyalty_bonus_bps: 25,
                                cash_flow_monthly: 0,
                            },
                        ),
                        total_active_tokens: 0,
                        positions: self.positions,
                    },
                    event: PropertyEvent::Initialized(admin),
                },
            )
        }
    }

    /// Replaces the rates; the annual rate must lie in 1..=2000 basis points.
    pub open spec fn update_roi_config(self, admin: Address, roi: RoiConfig) -> Result<
        PropertyStep,
        PropertyError,
    > {
        match self.admin {
            None => Err(PropertyError::NotInitialized),
            Some(stored) => if admin != stored {
                Err(PropertyError::NotAdmin)
            } else if roi.annual_rate_bps == 0 || roi.annual_rate_bps > 2000 {
                Err(PropertyError::InvalidAnnualRate)
            } else {
                Ok(
                    PropertyStep {
                        state: PropertyState {
                            contract_address: self.contract_address,
                            metadata: self.metadata,
                            admin: self.admin,
                            roi_config: Some(roi),
                            total_active_tokens: self.total_active_tokens,
                            positions: self.positions,
                        },
                        event: PropertyEvent::RoiConfigUpdated(
                            admin,
                            roi.annual_rate_bps,
                            roi.compounding_bonus_bps,
                            roi.loyalty_bonus_bps,
                        ),
                    },
                )
            },
        }
    }

    /// Why a purchase of `token_amount` tokens by `buyer` is refused before the
    /// compliance oracle is asked; `None` if it may go on.
    pub open spec fn purchase_refusal(self, buyer: Address, token_amount: i128) -> Option<
        PropertyError,
    > {
        if self.metadata is None {
            Some(PropertyError::NotInitialized)
        } else if self.positions.contains_key(buyer) {
            Some(PropertyError::PositionExists)
        } else if token_amount <= 0 {
            Some(PropertyError::InvalidAmount)
        } else {
            None
        }
    }

    /// A purchase of `token_amount` tokens by `buyer`, given whether the
    /// compliance oracle finds the buyer compliant and the stablecoin the buyer
    /// holds. The cost is `token_amount * token_price`.
    pub open spec fn purchase_tokens(
        self,
        buyer: Address,
        token_amount: i128,
        enable_compounding: bool,
        compliant: bool,
        buyer_balance: i128,
        now: u64,
    ) -> Result<PropertyStep, PropertyError> {
        match self.metadata {
            None => Err(PropertyError::NotInitialized),
            Some(m) => if self.purchase_refusal(buyer, token_amount) is Some {
                Err(self.purchase_refusal(buyer, token_amount)->0)
            } else if !compliant {
                Err(PropertyError::NotCompliant)
            } else if !fits_i128(token_amount * m.token_price) {
                Err(PropertyError::Overflow)
            } else if buyer_balance < token_amount * m.token_price {
                Err(PropertyError::InsufficientBalance)
            } else if !fits_i128(self.total_active_tokens + token_amount) {
                Err(PropertyError::Overflow)
            } else {
                let cost = (token_amount * m.token_price) as i128;
                Ok(
                    PropertyStep {
                        state: self.with_positions(
                            self.positions.insert(
                                buyer,
                                opened_position(token_amount, cost, enable_compounding, now),
                            ),
                            (self.total_active_tokens + token_amount) as i128,
                        ),
                        event: PropertyEvent::TokensPurchased(
                            buyer,
                            token_amount,
                            cost,
                            enable_compounding,
                        ),
                    },
                )
            },
        }
    }

    /// The rollover of `p`, the position of `user`, at `now`, once its gate has
    /// been passed.
    pub open spec fn apply_rollover(
        self,
        user: Address,
        p: UserPosition,
        roi: RoiConfig,
        now: u64,
        admin_triggered: bool,
    ) -> Result<PropertyStep, PropertyError> {
        match total_yield(p, roi) {
            None => Err(PropertyError::Overflow),
            Some(epoch_yield) => match rolled_over(p, epoch_yield, now) {
                None => Err(PropertyError::Overflow),
                Some(next) => Ok(
                    PropertyStep {
                        state: self.with_positions(
                            self.positions.insert(user, next),
                            self.total_active_tokens,
                        ),
                        event: PropertyEvent::PositionRolledOver(
                            user,
                            next.consecutive_rollovers,
                            epoch_yield,
                            next.loyalty_tier,
                            next.current_principal,
                            admin_triggered,
                        ),
                    },
                ),
            },
        }
    }

    /// A user's own rollover: allowed from thirty days after the epoch began.
    pub open spec fn rollover_position(self, user: Address, now: u64) -> Result<
        PropertyStep,
        PropertyError,
    > {
        if !self.positions.contains_key(user) {
            Err(PropertyError::NoPosition)
        } else {
            let p = self.positions[user];
            match self.roi_config {
                None => Err(PropertyError::NotInitialized),
                Some(roi) => if !(p.epoch_start + 2_592_000 <= u64::MAX) {
                    Err(PropertyError::Overflow)
                } else if now < p.epoch_start + 2_592_000 {
                    Err(PropertyError::EpochNotComplete)
                } else {
                    self.apply_rollover(user, p, roi, now, false)
                },
            }
        }
    }

    /// A rollover forced by the admin: allowed only once the grace period of a
    /// day after the epoch is over.
    pub open spec fn admin_rollover_position(self, admin: Address, user: Address, now: u64) -> Result<
        PropertyStep,
        PropertyError,
    > {
        match self.admin {
            None => Err(PropertyError::NotInitialized),
            Some(stored) => if admin != stored {
                Err(PropertyError::NotAdmin)
            } else if !self.positions.contains_key(user) {
                Err(PropertyError::NoPosition)
            } else {
                let p = self.positions[user];
                match self.roi_config {
                    None => Err(PropertyError::NotInitialized),
                    Some(roi) => if !(p.epoch_start + 2_592_000 + 86_400 <= u64::MAX) {
                        Err(PropertyError::Overflow)
                    } else if now < p.epoch_start + 2_592_000 + 86_400 {
                        Err(PropertyError::GracePeriodNotPassed)
                    } else {
                        self.apply_rollover(user, p, roi, now, true)
                    },
                }
            },
        }
    }

    /// A user's liquidation: allowed from thirty days after the epoch began.
    /// The payout is the principal plus one last epoch's yield; the position is
    /// removed and its tokens leave the active total.
    pub open spec fn liquidate_position(self, user: Address, now: u64) -> Result<
        PropertyStep,
        PropertyError,
    > {
        if !self.positions.contains_key(user) {
            Err(PropertyError::NoPosition)
        } else {
            let p = self.positions[user];
            match (self.metadata, self.roi_config) {
                (Some(m), Some(roi)) => if !(p.epoch_start + 2_592_000 <= u64::MAX) {
                    Err(PropertyError::Overflow)
                } else if now < p.epoch_start + 2_592_000 {
                    Err(PropertyError::EpochNotComplete)
                } else {
                    match total_yield(p, roi) {
                        None => Err(PropertyError::Overflow),
                        Some(final_yield) => if !fits_i128(p.current_principal + final_yield)
                            || !fits_i128(self.total_active_tokens - p.tokens) {
                            Err(PropertyError::Overflow)
                        } else {
                            Ok(
                                PropertyStep {
                                    state: self.with_positions(
                                        self.positions.remove(user),
                                        (self.total_active_tokens - p.tokens) as i128,
                                    ),
                                    event: PropertyEvent::PositionLiquidated(
                                        user,
                                        p.current_principal,
                                        final_yield,
                                        (p.current_principal + final_yield) as i128,
                                        p.consecutive_rollovers,
                                    ),
                                },
                            )
                        },
                    }
                },
                _ => Err(PropertyError::NotInitialized),
            }
        }
    }

    /// The preview of the running epoch of `user` at `now`.
    pub open spec fn preview_yield(self, user: Address, now: u64) -> Result<
        YieldPreview,
        PropertyError,
    > {
        if !self.positions.contains_key(user) {
            Err(PropertyError::NoPosition)
        } else {
            match self.roi_config {
                None => Err(PropertyError::NotInitialized),
                Some(roi) => match preview_of(self.positions[user], roi, now) {
                    None => Err(PropertyError::Overflow),
                    Some(preview) => Ok(preview),
                },
            }
        }
    }

    /// Whether `user` has a position whose epoch is complete at `now`.
    pub open spec fn can_take_action(self, user: Address, now: u64) -> bool {
        self.positions.contains_key(user) && epoch_complete(self.positions[user].epoch_start, now)
    }

    /// Whether `user` has a position whose epoch is complete at `now` while
    /// its grace period still runs.
    pub open spec fn is_in_grace_period(self, user: Address, now: u64) -> bool {
        self.positions.contains_key(user) && epoch_complete(self.positions[user].epoch_start, now)
            && !grace_over(self.positions[user].epoch_start, now)
    }

    /// Whether `user` has a position whose grace period is over at `now`.
    pub open spec fn can_admin_rollover(self, user: Address, now: u64) -> bool {
        self.positions.contains_key(user) && grace_over(self.positions[user].epoch_start, now)
    }
}

} // verus!
