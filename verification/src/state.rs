//! Per-cell running state of the monthly projection.

use vstd::prelude::*;
use crate::fixed::{RATE_SCALE, MONEY_CAP};
use crate::lapse::{spec_itm, calculate_itm_ness, ITM_CAP};
use crate::policy::{Policy, spec_policy_year, spec_month_in_policy_year, spec_attained_age};

verus! {

/// State of a policy cell at a point in the projection.
///
/// Money fields are in cents; lives, persistency factors and rates are scaled
/// by `RATE_SCALE`.
#[derive(Debug, Clone, Copy)]
pub struct ProjectionState {
    /// Current projection month (1-indexed; 0 before the first advance).
    pub projection_month: u32,
    /// Policy year (1-indexed).
    pub policy_year: u32,
    /// Month within the policy year (1..=12).
    pub month_in_policy_year: u32,
    /// Attained age.
    pub attained_age: u8,
    /// Beginning-of-period account value.
    pub bop_av: i64,
    /// Beginning-of-period benefit base.
    pub bop_benefit_base: i64,
    /// End-of-period account value.
    pub eop_av: i64,
    /// Lives in force, scaled (a fractional headcount).
    pub lives: i64,
    /// Cumulative account value persistency, scaled.
    pub av_persistency: i64,
    /// Cumulative benefit base persistency, scaled.
    pub bb_persistency: i64,
    /// Cumulative lives persistency, scaled.
    pub lives_persistency: i64,
    /// Whether rider income has been activated.
    pub income_activated: bool,
    /// Systematic withdrawals taken so far this policy year.
    pub ytd_systematic_wd: i64,
    /// Non-systematic withdrawals taken so far this policy year.
    pub ytd_non_systematic_wd: i64,
    /// Initial benefit base, for rollup calculations.
    pub initial_benefit_base: i64,
    /// Prior period's beginning account value, for the lagged moneyness.
    pub prior_bop_av: i64,
    /// Prior period's beginning benefit base, for the lagged moneyness.
    pub prior_bop_bb: i64,
    /// Payout rate frozen at the month income first activates, scaled.
    pub locked_payout_rate: Option<i64>,
    /// Lives at projection start, for chargeback normalisation.
    pub initial_lives: i64,
    /// Total commission of projection month one, captured once.
    pub first_month_total_commission: i64,
}

impl ProjectionState {
    /// Money amounts sit inside the kernel's cap, persistency factors and the
    /// locked rate are probabilities, and lives are non-negative.
    pub open spec fn wf(self) -> bool {
        &&& 0 <= self.bop_av <= MONEY_CAP
        &&& 0 <= self.bop_benefit_base <= MONEY_CAP
        &&& 0 <= self.eop_av <= MONEY_CAP
        &&& 0 <= self.lives <= MONEY_CAP
        &&& 0 <= self.av_persistency <= RATE_SCALE
        &&& 0 <= self.bb_persistency <= RATE_SCALE
        &&& 0 <= self.lives_persistency <= RATE_SCALE
        &&& 0 <= self.ytd_systematic_wd <= 13 * MONEY_CAP
        &&& 0 <= self.prior_bop_av <= MONEY_CAP
        &&& 0 <= self.prior_bop_bb <= MONEY_CAP
        &&& (self.locked_payout_rate matches Some(r) ==> 0 <= r <= RATE_SCALE)
        &&& 0 <= self.initial_lives <= MONEY_CAP
        &&& 0 <= self.first_month_total_commission <= 3 * MONEY_CAP
        &&& 0 <= self.initial_benefit_base <= MONEY_CAP
    }

    /// Initialise the state from a policy at projection start.
    pub fn from_policy(policy: &Policy) -> (r: Self)
        requires
            policy.wf(),
        ensures
            r.wf(),
            r.projection_month == 0,
            r.policy_year == 1,
            r.month_in_policy_year == 0,
            r.attained_age == policy.issue_age,
            r.bop_av == (if policy.current_av is Some {
                policy.current_av->0
            } else {
                policy.initial_premium
            }),
            r.bop_benefit_base == (if policy.current_benefit_base is Some {
                policy.current_benefit_base->0
            } else {
                policy.initial_benefit_base
            }),
            r.eop_av == r.bop_av,
            r.lives == policy.initial_pols,
            r.av_persistency == RATE_SCALE,
            r.bb_persistency == RATE_SCALE,
            r.lives_persistency == RATE_SCALE,
            r.income_activated == policy.income_activated,
            r.ytd_systematic_wd == 0,
            r.prior_bop_av == r.bop_av,
            r.prior_bop_bb == r.bop_benefit_base,
            r.locked_payout_rate is None,
            r.initial_lives == policy.initial_pols,
            r.first_month_total_commission == 0,
    {
        let starting_av = policy.starting_av();
        let starting_bb = policy.starting_benefit_base();
        ProjectionState {
            projection_month: 0,
            policy_year: 1,
            month_in_policy_year: 0,
            attained_age: policy.issue_age,
            bop_av: starting_av,
            bop_benefit_base: starting_bb,
            eop_av: starting_av,
            lives: policy.initial_pols,
            av_persistency: RATE_SCALE,
            bb_persistency: RATE_SCALE,
            lives_persistency: RATE_SCALE,
            income_activated: policy.income_activated,
            ytd_systematic_wd: 0,
            ytd_non_systematic_wd: 0,
            initial_benefit_base: starting_bb,
            prior_bop_av: starting_av,
            prior_bop_bb: starting_bb,
            locked_payout_rate: None,
            initial_lives: policy.initial_pols,
            first_month_total_commission: 0,
        }
    }

    /// Advance to the next month: step the counters, refresh the timing
    /// fields, flip income on when the activation year is reached, clear the
    /// year-to-date amounts at the start of a policy year, and roll the prior
    /// end-of-period account value into the new beginning value.
    pub fn advance_month(&mut self, policy: &Policy)
        requires
            old(self).wf(),
            policy.wf(),
            old(self).projection_month < 1_000_000,
        ensures
            final(self).wf(),
            final(self).projection_month == old(self).projection_month + 1,
            final(self).policy_year == spec_policy_year(
                policy.duration_months as int,
                final(self).projection_month as int,
            ),
            final(self).month_in_policy_year == spec_month_in_policy_year(
                policy.duration_months as int,
                final(self).projection_month as int,
            ),
            1 <= final(self).policy_year <= 1_000_000,
            1 <= final(self).month_in_policy_year <= 12,
            final(self).attained_age == spec_attained_age(
                policy.issue_age as int,
                policy.duration_months as int,
                final(self).projection_month as int,
            ),
            final(self).income_activated == (old(self).income_activated
                || policy.income_activated || spec_policy_year(
                policy.duration_months as int,
                final(self).projection_month as int,
            ) >= policy.glwb_start_year as int),
            final(self).ytd_systematic_wd == (if final(self).month_in_policy_year == 1 {
                0int
            } else {
                old(self).ytd_systematic_wd as int
            }),
            final(self).bop_av == old(self).eop_av,
            final(self).bop_benefit_base == old(self).bop_benefit_base,
            final(self).eop_av == old(self).eop_av,
            final(self).lives == old(self).lives,
            final(self).av_persistency == old(self).av_persistency,
            final(self).bb_persistency == old(self).bb_persistency,
            final(self).lives_persistency == old(self).lives_persistency,
            final(self).prior_bop_av == old(self).prior_bop_av,
            final(self).prior_bop_bb == old(self).prior_bop_bb,
            final(self).locked_payout_rate == old(self).locked_payout_rate,
            final(self).initial_lives == old(self).initial_lives,
            final(self).first_month_total_commission == old(self).first_month_total_commission,
            final(self).initial_benefit_base == old(self).initial_benefit_base,
    {
        self.projection_month = self.projection_month + 1;

        self.policy_year = policy.policy_year(self.projection_month);
        self.month_in_policy_year = policy.month_in_policy_year(self.projection_month);
        self.attained_age = policy.attained_age(self.projection_month);

        if !self.income_activated && policy.should_activate_income(self.projection_month) {
            self.income_activated = true;
        }

        if self.month_in_policy_year == 1 {
            self.ytd_systematic_wd = 0;
            self.ytd_non_systematic_wd = 0;
        }

        self.bop_av = self.eop_av;
    }

    /// Account value before this month's decrements are applied.
    pub fn pre_decrement_av(&self) -> (r: i64)
        ensures
            r == self.bop_av,
    {
        self.bop_av
    }

    /// Current in-the-moneyness: benefit base over account value.
    pub fn itm_ness(&self) -> (r: i64)
        requires
            self.wf(),
        ensures
            r == spec_itm(self.bop_benefit_base as int, self.bop_av as int),
            0 <= r <= ITM_CAP,
    {
        calculate_itm_ness(self.bop_benefit_base, self.bop_av)
    }

    /// Prior period's in-the-moneyness, the one the lapse model consumes:
    /// decrements for a month depend on the balance sheet at its start.
    pub fn prior_itm(&self) -> (r: i64)
        requires
            self.wf(),
        ensures
            r == spec_itm(self.prior_bop_bb as int, self.prior_bop_av as int),
            0 <= r <= ITM_CAP,
    {
        calculate_itm_ness(self.prior_bop_bb, self.prior_bop_av)
    }
}

} // verus!
