//! A property as an executable state object. Each operation is proved to take
//! the step that the model describes, or to fail with the model's error and
//! leave the property as it was.

use vstd::prelude::*;
use crate::address::{Address, AuthenticatedActor};
use crate::address_map::AddressMap;
use crate::arith::checked_mul_div;
use crate::property::laws::lemma_operations_keep_wf;
use crate::property::model::{
    base_yield, compounding_bonus, epoch_complete, grace_over, loyalty_bonus, rolled_over,
    total_yield, yield_component, yield_fits, PropertyState,
};
use crate::property::types::{
    PropertyError, PropertyEvent, PropertyMetadata, RoiConfig, UserPosition, YieldPreview,
};

verus! {

/// A property: what it is, its rates, and the open positions of its investors.
pub struct PropertyContract {
    contract_address: Address,
    metadata: Option<PropertyMetadata>,
    admin: Option<Address>,
    roi_config: Option<RoiConfig>,
    total_active_tokens: i128,
    positions: AddressMap<UserPosition>,
}

/// One month's yield on `principal` at `monthly_rate_bps` basis points,
/// truncated toward zero; `None` when the product overflows.
pub fn monthly_yield(principal: i128, monthly_rate_bps: u32) -> (y: Option<i128>)
    ensures
        y == yield_component(principal, monthly_rate_bps),
{
    checked_mul_div(principal, monthly_rate_bps as i128, 10_000)
}

/// The three components of the running epoch's yield: base yield, compounding
/// bonus and loyalty bonus; `None` when one of them cannot be computed without
/// overflow.
pub fn yield_components(position: &UserPosition, roi_config: &RoiConfig) -> (r: Option<
    (i128, i128, i128),
>)
    ensures
        r is Some <==> yield_fits(*position, *roi_config),
        r matches Some(c) ==> Some(c.0) == base_yield(*position, *roi_config) && Some(c.1)
            == compounding_bonus(*position, *roi_config) && Some(c.2) == loyalty_bonus(
            *position,
            *roi_config,
        ),
{
    let monthly_rate: u32 = roi_config.annual_rate_bps / 12;
    let base = match monthly_yield(position.current_principal, monthly_rate) {
        None => {
            return None;
        },
        Some(y) => y,
    };
    let compounding = if position.compounding_enabled {
        let bonus_rate: u32 = roi_config.compounding_bonus_bps / 12;
        match monthly_yield(position.current_principal, bonus_rate) {
            None => {
                return None;
            },
            Some(y) => y,
        }
    } else {
        0
    };
    let loyalty_rate: u32 = match position.loyalty_tier.checked_mul(roi_config.loyalty_bonus_bps) {
        None => {
            return None;
        },
        Some(product) => product / 12,
    };
    let loyalty = match monthly_yield(position.current_principal, loyalty_rate) {
        None => {
            return None;
        },
        Some(y) => y,
    };
    Some((base, compounding, loyalty))
}

/// Whether thirty days have passed at `now` since `epoch_start`. An epoch
/// whose end does not fit in 64 bits is never complete.
pub fn epoch_is_complete(epoch_start: u64, now: u64) -> (complete: bool)
    ensures
        complete == epoch_complete(epoch_start, now),
{
    match epoch_start.checked_add(2_592_000) {
        None => false,
        Some(end) => now >= end,
    }
}

/// Whether thirty days and the day of grace have passed at `now` since
/// `epoch_start`. A grace period whose end does not fit in 64 bits is never
/// over.
pub fn grace_is_over(epoch_start: u64, now: u64) -> (over: bool)
    ensures
        over == grace_over(epoch_start, now),
{
    match epoch_start.checked_add(2_592_000) {
        None => false,
        Some(end) => match end.checked_add(86_400) {
            None => false,
            Some(grace_end) => now >= grace_end,
        },
    }
}

/// The loyalty tier that `rollovers` consecutive rollovers give: the count,
/// capped at four.
pub fn loyalty_tier_for(rollovers: u32) -> (tier: u32)
    ensures
        tier == crate::property::model::tier_for(rollovers),
{
    if rollovers >= 4 {
        4
    } else {
        rollovers
    }
}

/// The yield of the running epoch of `position`: the sum of base yield,
/// compounding bonus and loyalty bonus; `None` when a component or the sum
/// overflows.
pub fn epoch_yield(position: &UserPosition, roi_config: &RoiConfig) -> (r: Option<i128>)
    ensures
        r == total_yield(*position, *roi_config),
{
    let (base, compounding, loyalty) = match yield_components(position, roi_config) {
        None => {
            return None;
        },
        Some(components) => components,
    };
    match base.checked_add(compounding) {
        None => None,
        Some(sum) => sum.checked_add(loyalty),
    }
}

/// `position` after a rollover at `now` that earned `earned`; `None` when a
/// sum overflows.
pub fn roll_over(position: &UserPosition, earned: i128, now: u64) -> (r: Option<UserPosition>)
    ensures
        r == rolled_over(*position, earned, now),
{
    let principal = if position.compounding_enabled {
        match position.current_principal.checked_add(earned) {
            None => {
                return None;
            },
            Some(sum) => sum,
        }
    } else {
        position.current_principal
    };
    let total_yield_earned = match position.total_yield_earned.checked_add(earned) {
        None => {
            return None;
        },
        Some(sum) => sum,
    };
    let rollovers = match position.consecutive_rollovers.checked_add(1) {
        None => {
            return None;
        },
        Some(count) => count,
    };
    Some(
        UserPosition {
            tokens: position.tokens,
            initial_investment: position.initial_investment,
            current_principal: principal,
            compounding_enabled: position.compounding_enabled,
            epoch_start: now,
            consecutive_rollovers: rollovers,
            total_yield_earned,
            loyalty_tier: loyalty_tier_for(rollovers),
        },
    )
}

impl PropertyContract {
    /// The state this property is in.
    pub closed spec fn view(&self) -> PropertyState {
        PropertyState {
            contract_address: self.contract_address,
            metadata: self.metadata,
            admin: self.admin,
            roi_config: self.roi_config,
            total_active_tokens: self.total_active_tokens,
            positions: self.positions@,
        }
    }

    /// What the representation needs beyond the state it stands for.
    pub closed spec fn repr_inv(&self) -> bool {
        self.positions.inv()
    }

    /// The invariant of every property: it stands for a well-formed state.
    pub open spec fn inv(&self) -> bool {
        self.repr_inv() && self@.wf()
    }

    /// A deployed property that has not been initialised.
    pub fn new(contract_address: Address) -> (property: PropertyContract)
        ensures
            property.inv(),
            property@ == PropertyState::uninitialized(contract_address),
    {
        PropertyContract {
            contract_address,
            metadata: None,
            admin: None,
            roi_config: None,
            total_active_tokens: 0,
            positions: AddressMap::new(),
        }
    }

    /// The property's own identity.
    pub fn contract_address(&self) -> (a: Address)
        ensures
            a == self@.contract_address,
    {
        self.contract_address
    }

    /// The three components of the running epoch's yield, each computed from
    /// the current principal with truncating integer division:
    /// `principal * (annual_rate_bps / 12) / 10000`, the same with the
    /// compounding bonus if compounding is on (else 0), and the same with
    /// `loyalty_tier * loyalty_bonus_bps / 12`. The three products and the
    /// loyalty rate must fit; [`yield_components`] tests that.
    pub fn calculate_yield(position: &UserPosition, roi_config: &RoiConfig) -> (r: (
        i128,
        i128,
        i128,
    ))
        requires
            yield_fits(*position, *roi_config),
        ensures
            Some(r.0) == base_yield(*position, *roi_config),
            Some(r.1) == compounding_bonus(*position, *roi_config),
            Some(r.2) == loyalty_bonus(*position, *roi_config),
    {
        match yield_components(position, roi_config) {
            Some(components) => components,
            None => (0, 0, 0),
        }
    }

    /// One-time initialisation by `admin`. Total supply and token price must be
    /// positive and the decimals at most seven. The rates start at 800, 200 and
    /// 25 basis points with no expected cash flow.
    pub fn initialize(
        &mut self,
        admin: &AuthenticatedActor,
        name: Vec<u8>,
        symbol: Vec<u8>,
        decimals: u32,
        total_supply: i128,
        token_price: i128,
        vault_address: Address,
        kyc_address: Address,
        stablecoin_address: Address,
    ) -> (r: Result<PropertyEvent, PropertyError>)
        requires
            old(self).inv(),
        ensures
            final(self).inv(),
            match old(self)@.initialize(
                admin@,
                PropertyMetadata {
                    name,
                    symbol,
                    decimals,
                    total_supply,
                    token_price,
                    vault_address,
                    kyc_address,
                    stablecoin_address,
                },
            ) {
                Ok(step) => r == Ok::<PropertyEvent, PropertyError>(step.event) && final(self)@
                    == step.state,
                Err(e) => r == Err::<PropertyEvent, PropertyError>(e) && final(self)@ == old(
                    self,
                )@,
            },
    {
        if self.metadata.is_some() {
            return Err(PropertyError::AlreadyInitialized);
        }
        if total_supply <= 0 {
            return Err(PropertyError::InvalidTotalSupply);
        }
        if decimals > 7 {
            return Err(PropertyError::InvalidDecimals);
        }
        if token_price <= 0 {
            return Err(PropertyError::InvalidTokenPrice);
        }
        let metadata = PropertyMetadata {
            name,
            symbol,
            decimals,
            total_supply,
            token_price,
            vault_address,
            kyc_address,
            stablecoin_address,
        };
        let roi_config = RoiConfig {
            annual_rate_bps: 800,
            compounding_bonus_bps: 200,
            loyalty_bonus_bps: 25,
            cash_flow_monthly: 0,
        };
        proof {
            lemma_operations_keep_wf(
                self@,
                admin@,
                admin@,
                metadata,
                roi_config,
                0,
                false,
                false,
                0,
                0,
            );
        }
        self.metadata = Some(metadata);
        self.roi_config = Some(roi_config);
        self.admin = Some(admin.address());
        self.total_active_tokens = 0;
        Ok(PropertyEvent::Initialized(admin.address()))
    }

    /// Replaces the rates. Only the stored admin may do so, and the annual rate
    /// must lie in 1..=2000 basis points.
    pub fn update_roi_config(
        &mut self,
        admin: &AuthenticatedActor,
        annual_rate_bps: u32,
        compounding_bonus_bps: u32,
        loyalty_bonus_bps: u32,
        cash_flow_monthly: i128,
    ) -> (r: Result<PropertyEvent, PropertyError>)
        requires
            old(self).inv(),
        ensures
            final(self).inv(),
            match old(self)@.update_roi_config(
                admin@,
                RoiConfig {
                    annual_rate_bps,
                    compounding_bonus_bps,
                    loyalty_bonus_bps,
                    cash_flow_monthly,
                },
            ) {
                Ok(step) => r == Ok::<PropertyEvent, PropertyError>(step.event) && final(self)@
                    == step.state,
                Err(e) => r == Err::<PropertyEvent, PropertyError>(e) && final(self)@ == old(
                    self,
                )@,
            },
    {
        let stored_admin = match self.admin {
            None => {
                return Err(PropertyError::NotInitialized);
            },
            Some(a) => a,
        };
        if admin.address() != stored_admin {
            return Err(PropertyError::NotAdmin);
        }
        if annual_rate_bps == 0 || annual_rate_bps > 2000 {
            return Err(PropertyError::InvalidAnnualRate);
        }
        self.roi_config = Some(
            RoiConfig { annual_rate_bps, compounding_bonus_bps, loyalty_bonus_bps, cash_flow_monthly },
        );
        Ok(
            PropertyEvent::RoiConfigUpdated(
                admin.address(),
                annual_rate_bps,
                compounding_bonus_bps,
                loyalty_bonus_bps,
            ),
        )
    }

    /// Whether a purchase of `token_amount` tokens by `buyer` may go on to the
    /// compliance oracle: the property is initialised, the buyer has no
    /// position yet, and the amount is positive.
    pub fn check_purchase(&self, buyer: &AuthenticatedActor, token_amount: i128) -> (r: Result<
        (),
        PropertyError,
    >)
        requires
            self.inv(),
        ensures
            match self@.purchase_refusal(buyer@, token_amount) {
                Some(e) => r == Err::<(), PropertyError>(e),
                None => r == Ok::<(), PropertyError>(()),
            },
    {
        if self.metadata.is_none() {
            return Err(PropertyError::NotInitialized);
        }
        if self.positions.contains_key(&buyer.address()) {
            return Err(PropertyError::PositionExists);
        }
        if token_amount <= 0 {
            return Err(PropertyError::InvalidAmount);
        }
        Ok(())
    }

    /// A purchase of `token_amount` tokens by `buyer`. `compliant` is the
    /// compliance oracle's answer for the buyer, `buyer_balance` the stablecoin
    /// the buyer holds.
    ///
    /// Refused if the buyer has a position already, the amount is not positive,
    /// the buyer is not compliant, or the buyer holds less than the cost
    /// `token_amount * token_price`. On success the position opens with the
    /// cost as principal, its epoch beginning at `now`, and the tokens join the
    /// active total; the event names the cost the buyer pays to the property.
    pub fn purchase_tokens(
        &mut self,
        buyer: &AuthenticatedActor,
        token_amount: i128,
        enable_compounding: bool,
        compliant: bool,
        buyer_balance: i128,
        now: u64,
    ) -> (r: Result<PropertyEvent, PropertyError>)
        requires
            old(self).inv(),
        ensures
            final(self).inv(),
            match old(self)@.purchase_tokens(
                buyer@,
                token_amount,
                enable_compounding,
                compliant,
                buyer_balance,
                now,
            ) {
                Ok(step) => r == Ok::<PropertyEvent, PropertyError>(step.event) && final(self)@
                    == step.state,
                Err(e) => r == Err::<PropertyEvent, PropertyError>(e) && final(self)@ == old(
                    self,
                )@,
            },
    {
        match self.check_purchase(buyer, token_amount) {
            Err(e) => {
                return Err(e);
            },
            Ok(_) => {},
        }
        let token_price = match &self.metadata {
            None => {
                return Err(PropertyError::NotInitialized);
            },
            Some(m) => m.token_price,
        };
        let user = buyer.address();
        if !compliant {
            return Err(PropertyError::NotCompliant);
        }
        let cost = match token_amount.checked_mul(token_price) {
            None => {
                return Err(PropertyError::Overflow);
            },
            Some(product) => product,
        };
        if buyer_balance < cost {
            return Err(PropertyError::InsufficientBalance);
        }
        let total_active = match self.total_active_tokens.checked_add(token_amount) {
            None => {
                return Err(PropertyError::Overflow);
            },
            Some(sum) => sum,
        };
        let position = UserPosition {
            tokens: token_amount,
            initial_investment: cost,
            current_principal: cost,
            compounding_enabled: enable_compounding,
            epoch_start: now,
            consecutive_rollovers: 0,
            total_yield_earned: 0,
            loyalty_tier: 0,
        };
        self.positions.insert(user, position);
        self.total_active_tokens = total_active;
        Ok(PropertyEvent::TokensPurchased(user, token_amount, cost, enable_compounding))
    }

    /// The rollover proper, shared by the user's and the admin's path.
    fn apply_rollover(
        &mut self,
        user: Address,
        position: &UserPosition,
        roi_config: &RoiConfig,
        now: u64,
        admin_triggered: bool,
    ) -> (r: Result<PropertyEvent, PropertyError>)
        requires
            old(self).inv(),
        ensures
            final(self).inv(),
            match old(self)@.apply_rollover(user, *position, *roi_config, now, admin_triggered) {
                Ok(step) => r == Ok::<PropertyEvent, PropertyError>(step.event) && final(self)@
                    == step.state,
                Err(e) => r == Err::<PropertyEvent, PropertyError>(e) && final(self)@ == old(
                    self,
                )@,
            },
    {
        let earned = match epoch_yield(position, roi_config) {
            None => {
                return Err(PropertyError::Overflow);
            },
            Some(y) => y,
        };
        let next = match roll_over(position, earned, now) {
            None => {
                return Err(PropertyError::Overflow);
            },
            Some(p) => p,
        };
        self.positions.insert(user, next);
        Ok(
            PropertyEvent::PositionRolledOver(
                user,
                next.consecutive_rollovers,
                earned,
                next.loyalty_tier,
                next.current_principal,
                admin_triggered,
            ),
        )
    }

    /// A user's own rollover into the next epoch, allowed once thirty days have
    /// passed since the epoch began.
    ///
    /// The epoch's yield is added to the total earned, and to the principal if
    /// and only if compounding is on; the rollover count grows by one, the
    /// loyalty tier becomes `min(count, 4)`, and the new epoch begins at `now`.
    pub fn rollover_position(&mut self, user: &AuthenticatedActor, now: u64) -> (r: Result<
        PropertyEvent,
        PropertyError,
    >)
        requires
            old(self).inv(),
        ensures
            final(self).inv(),
            match old(self)@.rollover_position(user@, now) {
                Ok(step) => r == Ok::<PropertyEvent, PropertyError>(step.event) && final(self)@
                    == step.state,
                Err(e) => r == Err::<PropertyEvent, PropertyError>(e) && final(self)@ == old(
                    self,
                )@,
            },
            r is Ok ==> {
                let before = old(self)@.positions[user@];
                let after = final(self)@.positions[user@];
                &&& total_yield(before, old(self)@.roi_config->0) matches Some(earned)
                &&& after.total_yield_earned == before.total_yield_earned + earned
                &&& after.current_principal == if before.compounding_enabled {
                    before.current_principal + earned
                } else {
                    before.current_principal as int
                }
                &&& after.consecutive_rollovers == before.consecutive_rollovers + 1
                &&& after.loyalty_tier == if after.consecutive_rollovers >= 4 {
                    4
                } else {
                    after.consecutive_rollovers
                }
                &&& after.epoch_start == now
            },
    {
        let who = user.address();
        let position = match self.positions.get(&who) {
            None => {
                return Err(PropertyError::NoPosition);
            },
            Some(p) => *p,
        };
        let roi_config = match self.roi_config {
            None => {
                return Err(PropertyError::NotInitialized);
            },
            Some(roi) => roi,
        };
        let epoch_end = match position.epoch_start.checked_add(2_592_000) {
            None => {
                return Err(PropertyError::Overflow);
            },
            Some(t) => t,
        };
        if now < epoch_end {
            return Err(PropertyError::EpochNotComplete);
        }
        self.apply_rollover(who, &position, &roi_config, now, false)
    }

    /// A rollover forced by the admin, allowed only once thirty days and the
    /// grace period of one day have passed since the epoch began. It does to
    /// the position what the user's own rollover does.
    pub fn admin_rollover_position(&mut self, admin: &AuthenticatedActor, user: Address, now: u64) -> (r:
        Result<PropertyEvent, PropertyError>)
        requires
            old(self).inv(),
        ensures
            final(self).inv(),
            match old(self)@.admin_rollover_position(admin@, user, now) {
                Ok(step) => r == Ok::<PropertyEvent, PropertyError>(step.event) && final(self)@
                    == step.state,
                Err(e) => r == Err::<PropertyEvent, PropertyError>(e) && final(self)@ == old(
                    self,
                )@,
            },
            r is Ok ==> {
                let before = old(self)@.positions[user];
                let after = final(self)@.positions[user];
                &&& total_yield(before, old(self)@.roi_config->0) matches Some(earned)
                &&& after.total_yield_earned == before.total_yield_earned + earned
                &&& after.current_principal == if before.compounding_enabled {
                    before.current_principal + earned
                } else {
                    before.current_principal as int
                }
                &&& after.consecutive_rollovers == before.consecutive_rollovers + 1
                &&& after.loyalty_tier == if after.consecutive_rollovers >= 4 {
                    4
                } else {
                    after.consecutive_rollovers
                }
                &&& after.epoch_start == now
            },
    {
        let stored_admin = match self.admin {
            None => {
                return Err(PropertyError::NotInitialized);
            },
            Some(a) => a,
        };
        if admin.address() != stored_admin {
            return Err(PropertyError::NotAdmin);
        }
        let position = match self.positions.get(&user) {
            None => {
                return Err(PropertyError::NoPosition);
            },
            Some(p) => *p,
        };
        let roi_config = match self.roi_config {
            None => {
                return Err(PropertyError::NotInitialized);
            },
            Some(roi) => roi,
        };
        let epoch_end = match position.epoch_start.checked_add(2_592_000) {
            None => {
                return Err(PropertyError::Overflow);
            },
            Some(t) => t,
        };
        let grace_period_end = match epoch_end.checked_add(86_400) {
            None => {
                return Err(PropertyError::Overflow);
            },
            Some(t) => t,
        };
        if now < grace_period_end {
            return Err(PropertyError::GracePeriodNotPassed);
        }
        self.apply_rollover(user, &position, &roi_config, now, true)
    }

    /// A user's liquidation, allowed once thirty days have passed since the
    /// epoch began. The payout is the current principal plus one last epoch's
    /// yield; the position is removed and its tokens leave the active total.
    /// The event names the user and the payout that the vault is to be asked
    /// for on behalf of this property.
    pub fn liquidate_position(&mut self, user: &AuthenticatedActor, now: u64) -> (r: Result<
        PropertyEvent,
        PropertyError,
    >)
        requires
            old(self).inv(),
        ensures
            final(self).inv(),
            match old(self)@.liquidate_position(user@, now) {
                Ok(step) => r == Ok::<PropertyEvent, PropertyError>(step.event) && final(self)@
                    == step.state,
                Err(e) => r == Err::<PropertyEvent, PropertyError>(e) && final(self)@ == old(
                    self,
                )@,
            },
    {
        let who = user.address();
        let position = match self.positions.get(&who) {
            None => {
                return Err(PropertyError::NoPosition);
            },
            Some(p) => *p,
        };
        if self.metadata.is_none() {
            return Err(PropertyError::NotInitialized);
        }
        let roi_config = match self.roi_config {
            None => {
                return Err(PropertyError::NotInitialized);
            },
            Some(roi) => roi,
        };
        let epoch_end = match position.epoch_start.checked_add(2_592_000) {
            None => {
                return Err(PropertyError::Overflow);
            },
            Some(t) => t,
        };
        if now < epoch_end {
            return Err(PropertyError::EpochNotComplete);
        }
        let final_yield = match epoch_yield(&position, &roi_config) {
            None => {
                return Err(PropertyError::Overflow);
            },
            Some(y) => y,
        };
        let total_payout = match position.current_principal.checked_add(final_yield) {
            None => {
                return Err(PropertyError::Overflow);
            },
            Some(sum) => sum,
        };
        let total_active = match self.total_active_tokens.checked_sub(position.tokens) {
            None => {
                return Err(PropertyError::Overflow);
            },
            Some(rest) => rest,
        };
        self.positions.remove(&who);
        self.total_active_tokens = total_active;
        Ok(
            PropertyEvent::PositionLiquidated(
                who,
                position.current_principal,
                final_yield,
                total_payout,
                position.consecutive_rollovers,
            ),
        )
    }

    /// The position of `user`, if one is open.
    pub fn get_user_position(&self, user: &Address) -> (r: Option<UserPosition>)
        requires
            self.inv(),
        ensures
            match r {
                Some(p) => self@.positions.contains_key(*user) && p == self@.positions[*user],
                None => !self@.positions.contains_key(*user),
            },
    {
        match self.positions.get(user) {
            Some(p) => Some(*p),
            None => None,
        }
    }

    /// The yield components of the running epoch of `user`, their sum, the
    /// whole days since the epoch began and the days that remain of its thirty.
    /// Nothing is changed.
    pub fn preview_yield(&self, user: &Address, now: u64) -> (r: Result<YieldPreview, PropertyError>)
        requires
            self.inv(),
        ensures
            r == self@.preview_yield(*user, now),
    {
        let position = match self.positions.get(user) {
            None => {
                return Err(PropertyError::NoPosition);
            },
            Some(p) => *p,
        };
        let roi_config = match self.roi_config {
            None => {
                return Err(PropertyError::NotInitialized);
            },
            Some(roi) => roi,
        };
        let elapsed: u64 = match now.checked_sub(position.epoch_start) {
            Some(e) => e,
            None => 0,
        };
        let days: u64 = (elapsed / 86_400) % 0x1_0000_0000;
        let days_elapsed: u32 = days as u32;
        let days_remaining: u32 = if days_elapsed >= 30 {
            0
        } else {
            30 - days_elapsed
        };
        let total = match epoch_yield(&position, &roi_config) {
            None => {
                return Err(PropertyError::Overflow);
            },
            Some(y) => y,
        };
        let (base, compounding, loyalty) = PropertyContract::calculate_yield(
            &position,
            &roi_config,
        );
        Ok(
            YieldPreview {
                base_yield: base,
                compounding_bonus: compounding,
                loyalty_bonus: loyalty,
                total_yield: total,
                days_elapsed,
                days_remaining,
            },
        )
    }

    /// Whether `user` has a position whose epoch is complete at `now`, so that
    /// the user may roll over or liquidate.
    pub fn can_take_action(&self, user: &Address, now: u64) -> (r: bool)
        requires
            self.inv(),
        ensures
            r == self@.can_take_action(*user, now),
    {
        match self.positions.get(user) {
            None => false,
            Some(p) => epoch_is_complete(p.epoch_start, now),
        }
    }

    /// Whether `user` has a position that is in its grace period at `now`: the
    /// epoch is complete and the day after it has not passed.
    pub fn is_in_grace_period(&self, user: &Address, now: u64) -> (r: bool)
        requires
            self.inv(),
        ensures
            r == self@.is_in_grace_period(*user, now),
    {
        match self.positions.get(user) {
            None => false,
            Some(p) => epoch_is_complete(p.epoch_start, now) && !grace_is_over(
                p.epoch_start,
                now,
            ),
        }
    }

    /// Whether `user` has a position whose grace period is over at `now`, so
    /// that the admin may roll it over.
    pub fn can_admin_rollover(&self, user: &Address, now: u64) -> (r: bool)
        requires
            self.inv(),
        ensures
            r == self@.can_admin_rollover(*user, now),
    {
        match self.positions.get(user) {
            None => false,
            Some(p) => grace_is_over(p.epoch_start, now),
        }
    }

    /// What the property is, once it is initialised.
    pub fn get_metadata(&self) -> (r: Result<&PropertyMetadata, PropertyError>)
        ensures
            match self@.metadata {
                Some(m) => r matches Ok(found) && *found == m,
                None => r matches Err(e) && e == PropertyError::NotInitialized,
            },
    {
        match &self.metadata {
            Some(m) => Ok(m),
            None => Err(PropertyError::NotInitialized),
        }
    }

    /// The rates, once the property is initialised.
    pub fn get_roi_config(&self) -> (r: Result<RoiConfig, PropertyError>)
        ensures
            match self@.roi_config {
                Some(roi) => r == Ok::<RoiConfig, PropertyError>(roi),
                None => r == Err::<RoiConfig, PropertyError>(PropertyError::NotInitialized),
            },
    {
        match self.roi_config {
            Some(roi) => Ok(roi),
            None => Err(PropertyError::NotInitialized),
        }
    }

    /// The tokens of all open positions.
    pub fn total_active_tokens(&self) -> (total: i128)
        ensures
            total == self@.total_active_tokens,
    {
        self.total_active_tokens
    }

    /// The admin, once the property is initialised.
    pub fn get_admin(&self) -> (r: Result<Address, PropertyError>)
        ensures
            match self@.admin {
                Some(a) => r == Ok::<Address, PropertyError>(a),
                None => r == Err::<Address, PropertyError>(PropertyError::NotInitialized),
            },
    {
        match self.admin {
            Some(a) => Ok(a),
            None => Err(PropertyError::NotInitialized),
        }
    }
}

/// Whether every position of `positions` has the tier its rollovers give.
fn positions_well_formed(positions: &AddressMap<UserPosition>) -> (ok: bool)
    requires
        positions.inv(),
    ensures
        ok == crate::property::model::positions_wf(positions@),
{
    proof {
        positions.lemma_view_of_entries();
    }
    let mut i: usize = 0;
    while i < positions.len()
        invariant
            positions.inv(),
            i <= positions.entries_view().len(),
            crate::address_map::distinct_keys(positions.entries_view()),
            positions@ == crate::address_map::entries_to_map(positions.entries_view()),
            forall|j: int|
                0 <= j < i ==> crate::property::model::position_wf(
                    (#[trigger] positions.entries_view()[j]).value,
                ),
        decreases positions.entries_view().len() - i,
    {
        let entry = positions.entry_at(i);
        proof {
            crate::address_map::lemma_entry_at(positions.entries_view(), i as int);
        }
        if entry.value.loyalty_tier != loyalty_tier_for(entry.value.consecutive_rollovers) {
            return false;
        }
        i += 1;
    }
    proof {
        assert forall|user: Address| #[trigger]
            positions@.contains_key(user) implies crate::property::model::position_wf(
            positions@[user],
        ) by {
            assert(crate::address_map::has_key(positions.entries_view(), user));
            let j = crate::address_map::index_of(positions.entries_view(), user);
            crate::address_map::lemma_entry_at(positions.entries_view(), j);
        }
    }
    true
}

impl PropertyContract {
    /// Puts a property together from stored parts. The parts are refused
    /// unless they make a well-formed property: metadata, admin and rates are
    /// there together or not at all, supply and price are positive with at most
    /// seven decimals, and each position has the tier its rollovers give.
    pub fn restore(
        contract_address: Address,
        metadata: Option<PropertyMetadata>,
        admin: Option<Address>,
        roi_config: Option<RoiConfig>,
        total_active_tokens: i128,
        positions: AddressMap<UserPosition>,
    ) -> (r: Result<PropertyContract, PropertyError>)
        requires
            positions.inv(),
        ensures
            ({
                let state = PropertyState {
                    contract_address,
                    metadata,
                    admin,
                    roi_config,
                    total_active_tokens,
                    positions: positions@,
                };
                match r {
                    Ok(property) => property.inv() && property@ == state,
                    Err(e) => e == PropertyError::InconsistentState && !state.wf(),
                }
            }),
    {
        if metadata.is_some() != admin.is_some() || metadata.is_some() != roi_config.is_some() {
            return Err(PropertyError::InconsistentState);
        }
        match &metadata {
            Some(m) => {
                if m.total_supply <= 0 || m.decimals > 7 || m.token_price <= 0 {
                    return Err(PropertyError::InconsistentState);
                }
            },
            None => {},
        }
        if !positions_well_formed(&positions) {
            return Err(PropertyError::InconsistentState);
        }
        Ok(
            PropertyContract {
                contract_address,
                metadata,
                admin,
                roi_config,
                total_active_tokens,
                positions,
            },
        )
    }
}

} // verus!
