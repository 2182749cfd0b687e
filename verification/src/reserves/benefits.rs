//! Benefit stream calculations for reserve valuation: mortality-weighted
//! death benefit present values, elective income present values, and the cash
//! surrender value.

use vstd::prelude::*;
use crate::fixed::{RATE_SCALE, MONEY_CAP, scale_down, mul_money_rate, mul_rate_probs};
use crate::policy::Policy;
use crate::assumptions::Assumptions;
use crate::mortality::{MortalityTable, spec_monthly_mortality};
use crate::product::{GlwbFeatures, spec_band_rate, spec_sc_rate};
use crate::reserves::discount::{DiscountCurve, spec_monthly_discount_factor};

verus! {

/// Saturating money addition at the kernel cap.
pub open spec fn spec_add_capped(a: int, b: int) -> int {
    if a + b > MONEY_CAP {
        MONEY_CAP as int
    } else {
        a + b
    }
}

/// One step of the reserve-side simplified projection: apply the rider charge
/// at every twelfth projection month, take the systematic withdrawal when
/// income is on, floor the account at zero, roll the benefit base up at the
/// last month of a policy year in the charge period, and decay both by
/// mortality.  Returns the new (account value, benefit base).
pub open spec fn spec_reserve_step(
    glwb: GlwbFeatures,
    policy: Policy,
    m: int,
    active: bool,
    q: int,
    av: int,
    bb: int,
) -> (int, int) {
    let mipy = crate::policy::spec_month_in_policy_year(policy.duration_months as int, m);
    let py = crate::policy::spec_policy_year(policy.duration_months as int, m);
    let age = crate::policy::spec_attained_age(
        policy.issue_age as int,
        policy.duration_months as int,
        m,
    );
    let rider_charge = if m % 12 == 0 {
        scale_down(
            bb,
            if active {
                glwb.post_activation_charge as int
            } else {
                glwb.pre_activation_charge as int
            },
        )
    } else {
        0
    };
    let swd = if active {
        scale_down(bb, spec_band_rate(glwb.payout_factors.view(), age, 0)) / 12
    } else {
        0
    };
    let av1 = if av - swd - rider_charge > 0 {
        av - swd - rider_charge
    } else {
        0
    };
    let bb1 = if !active && mipy == 12 && py <= policy.sc_period as int {
        let (num, den) = crate::engine::spec_rollup_ratio(
            glwb.bonus_rate as int,
            glwb.rollup_rate as int,
            py,
        );
        let rolled = (bb * num) / den;
        if rolled > MONEY_CAP {
            MONEY_CAP as int
        } else {
            rolled
        }
    } else {
        bb
    };
    (scale_down(av1, RATE_SCALE - q), scale_down(bb1, RATE_SCALE - q))
}

/// Present value of the death benefits from month `m` (exclusive of months at
/// or past `end`) along a path activating at `activation` (none for never):
/// at each month the survival-weighted probability of death pays the projected
/// account value, discounted by the running power of `v_death`; the walk stops
/// once survival is exhausted.
pub open spec fn spec_death_pv(
    t: MortalityTable,
    glwb: GlwbFeatures,
    policy: Policy,
    m: int,
    end: int,
    activation: Option<int>,
    av: int,
    bb: int,
    surv: int,
    disc: int,
    v_death: int,
) -> int
    decreases end - m,
{
    if m >= end || surv <= 0 {
        0
    } else {
        let active = activation matches Some(a) && m >= a;
        let age = crate::policy::spec_attained_age(
            policy.issue_age as int,
            policy.duration_months as int,
            m,
        );
        let q = spec_monthly_mortality(t, age, policy.gender, m);
        let contribution = scale_down(scale_down(av, scale_down(surv, q)), disc);
        let (av1, bb1) = spec_reserve_step(glwb, policy, m, active, q, av, bb);
        let rest = spec_death_pv(
            t,
            glwb,
            policy,
            m + 1,
            end,
            activation,
            av1,
            bb1,
            scale_down(surv, RATE_SCALE - q),
            scale_down(disc, v_death),
            v_death,
        );
        spec_add_capped(contribution, rest)
    }
}

/// Present value of the income stream from month `m`: once at or past the
/// activation month, the monthly income is paid, weighted by survival and
/// discounted by the running power of `v`; the walk stops once survival is
/// exhausted.
pub open spec fn spec_income_pv(
    t: MortalityTable,
    policy: Policy,
    m: int,
    end: int,
    activation: int,
    monthly_income: int,
    surv: int,
    disc: int,
    v: int,
) -> int
    decreases end - m,
{
    if m >= end || surv <= 0 {
        0
    } else {
        let age = crate::policy::spec_attained_age(
            policy.issue_age as int,
            policy.duration_months as int,
            m,
        );
        let q = spec_monthly_mortality(t, age, policy.gender, m);
        let contribution = if m >= activation {
            scale_down(scale_down(monthly_income, surv), disc)
        } else {
            0
        };
        let rest = spec_income_pv(
            t,
            policy,
            m + 1,
            end,
            activation,
            monthly_income,
            scale_down(surv, RATE_SCALE - q),
            scale_down(disc, v),
            v,
        );
        spec_add_capped(contribution, rest)
    }
}

/// Calculator for benefit stream present values.
pub struct BenefitCalculator<'a> {
    pub assumptions: &'a Assumptions,
    pub discount_curve: DiscountCurve,
    pub max_projection_months: u32,
}

impl<'a> BenefitCalculator<'a> {
    pub open spec fn wf(self) -> bool {
        &&& self.assumptions.wf()
        &&& self.discount_curve.wf()
        &&& self.max_projection_months <= 100_000
    }

    /// Create a calculator from assumptions, a curve and a horizon.
    pub fn new(
        assumptions: &'a Assumptions,
        discount_curve: DiscountCurve,
        max_projection_months: u32,
    ) -> (r: Self)
        requires
            assumptions.wf(),
            discount_curve.wf(),
            max_projection_months <= 100_000,
        ensures
            r.wf(),
            r.assumptions == assumptions,
            r.discount_curve == discount_curve,
            r.max_projection_months == max_projection_months,
    {
        BenefitCalculator { assumptions, discount_curve, max_projection_months }
    }

    /// Create a calculator with the policy's own valuation rate and the
    /// standard horizon.
    pub fn from_policy(assumptions: &'a Assumptions, policy: &Policy) -> (r: Self)
        requires
            assumptions.wf(),
            policy.wf(),
        ensures
            r.wf(),
            r.assumptions == assumptions,
            r.discount_curve.valuation_rate == policy.val_rate,
            r.max_projection_months == 768,
    {
        BenefitCalculator {
            assumptions,
            discount_curve: DiscountCurve::single_rate(policy.val_rate),
            max_projection_months: 768,
        }
    }

    /// Present value of the death benefits from a valuation month along a
    /// path with the given activation month (none for never).
    pub fn death_benefit_pv(
        &self,
        policy: &Policy,
        valuation_month: u32,
        activation_month: Option<u32>,
        starting_av: i64,
        starting_bb: i64,
    ) -> (r: i64)
        requires
            self.wf(),
            policy.wf(),
            0 <= starting_av <= MONEY_CAP,
            0 <= starting_bb <= MONEY_CAP,
            valuation_month <= 100_000,
        ensures
            r == spec_death_pv(
                self.assumptions.mortality,
                self.assumptions.product.glwb,
                *policy,
                valuation_month as int,
                self.max_projection_months as int,
                if activation_month is Some {
                    Some(activation_month->0 as int)
                } else {
                    None
                },
                starting_av as int,
                starting_bb as int,
                RATE_SCALE as int,
                RATE_SCALE as int,
                spec_monthly_discount_factor(
                    if self.discount_curve.death_benefit_rate is Some {
                        self.discount_curve.death_benefit_rate->0 as int
                    } else {
                        self.discount_curve.valuation_rate as int
                    },
                ),
            ),
            0 <= r <= MONEY_CAP,
    {
        let v_death = self.discount_curve.death_benefit_discount_factor();
        death_walk(
            &self.assumptions.mortality,
            &self.assumptions.product.glwb,
            policy,
            valuation_month,
            self.max_projection_months,
            activation_month,
            starting_av,
            starting_bb,
            RATE_SCALE,
            RATE_SCALE,
            v_death,
        )
    }

    /// Present value of the income stream when income activates at
    /// `activation_month`, with the benefit base frozen there; months before
    /// the valuation month yield nothing.
    pub fn income_benefit_pv(
        &self,
        policy: &Policy,
        valuation_month: u32,
        activation_month: u32,
        starting_bb: i64,
    ) -> (r: i64)
        requires
            self.wf(),
            policy.wf(),
            0 <= starting_bb <= MONEY_CAP,
            valuation_month <= 100_000,
            activation_month <= 1_000_000,
        ensures
            activation_month < valuation_month ==> r == 0,
            activation_month >= valuation_month ==> r == spec_income_pv(
                self.assumptions.mortality,
                *policy,
                valuation_month as int,
                self.max_projection_months as int,
                activation_month as int,
                scale_down(
                    starting_bb as int,
                    spec_band_rate(
                        self.assumptions.product.glwb.payout_factors.view(),
                        crate::policy::spec_attained_age(
                            policy.issue_age as int,
                            policy.duration_months as int,
                            activation_month as int,
                        ),
                        0,
                    ),
                ) / 12,
                RATE_SCALE as int,
                RATE_SCALE as int,
                spec_monthly_discount_factor(self.discount_curve.valuation_rate as int),
            ),
            0 <= r <= MONEY_CAP,
    {
        if activation_month < valuation_month {
            return 0;
        }
        let activation_age = policy.attained_age(activation_month);
        let payout_rate = self.assumptions.product.glwb.payout_factors.get_single_life(
            activation_age,
        );
        let monthly_income = mul_money_rate(starting_bb, payout_rate) / 12;
        let v = self.discount_curve.elective_discount_factor();
        income_walk(
            &self.assumptions.mortality,
            policy,
            valuation_month,
            self.max_projection_months,
            activation_month,
            monthly_income,
            RATE_SCALE,
            RATE_SCALE,
            v,
        )
    }

    /// Present value of the income stream already in payment, at a locked
    /// payout rate: payments start immediately.
    pub fn remaining_income_pv(
        &self,
        policy: &Policy,
        valuation_month: u32,
        current_bb: i64,
        locked_payout_rate: i64,
    ) -> (r: i64)
        requires
            self.wf(),
            policy.wf(),
            0 <= current_bb <= MONEY_CAP,
            0 <= locked_payout_rate <= RATE_SCALE,
            valuation_month <= 100_000,
        ensures
            r == spec_income_pv(
                self.assumptions.mortality,
                *policy,
                valuation_month as int,
                self.max_projection_months as int,
                valuation_month as int,
                scale_down(current_bb as int, locked_payout_rate as int) / 12,
                RATE_SCALE as int,
                RATE_SCALE as int,
                spec_monthly_discount_factor(self.discount_curve.valuation_rate as int),
            ),
            0 <= r <= MONEY_CAP,
    {
        let monthly_income = mul_money_rate(current_bb, locked_payout_rate) / 12;
        let v = self.discount_curve.elective_discount_factor();
        income_walk(
            &self.assumptions.mortality,
            policy,
            valuation_month,
            self.max_projection_months,
            valuation_month,
            monthly_income,
            RATE_SCALE,
            RATE_SCALE,
            v,
        )
    }

    /// Cash surrender value: the account value net of the year's surrender
    /// charge.
    pub fn cash_surrender_value(&self, policy: &Policy, month: u32, account_value: i64) -> (r:
        i64)
        requires
            self.wf(),
            policy.wf(),
            0 <= account_value <= MONEY_CAP,
        ensures
            r == scale_down(
                account_value as int,
                RATE_SCALE - spec_sc_rate(
                    self.assumptions.product.base.surrender_charges.view(),
                    crate::policy::spec_policy_year(policy.duration_months as int, month as int),
                ),
            ),
            0 <= r <= account_value,
    {
        let policy_year = policy.policy_year(month);
        let sc_rate = self.assumptions.product.base.surrender_charges.get_rate(policy_year);
        mul_money_rate(account_value, RATE_SCALE - sc_rate)
    }

    /// Total reserve along one activation path: the death benefit present
    /// value plus the elective income present value (nothing elective on the
    /// never path).
    pub fn total_reserve_for_path(
        &self,
        policy: &Policy,
        valuation_month: u32,
        activation_month: Option<u32>,
        starting_av: i64,
        starting_bb: i64,
    ) -> (r: i64)
        requires
            self.wf(),
            policy.wf(),
            0 <= starting_av <= MONEY_CAP,
            0 <= starting_bb <= MONEY_CAP,
            valuation_month <= 100_000,
            activation_month matches Some(a) ==> a <= 1_000_000,
        ensures
            0 <= r <= 2 * MONEY_CAP,
    {
        let death_pv = self.death_benefit_pv(
            policy,
            valuation_month,
            activation_month,
            starting_av,
            starting_bb,
        );
        let elective_pv: i64 = match activation_month {
            Some(am) => self.income_benefit_pv(policy, valuation_month, am, starting_bb),
            None => 0,
        };
        death_pv + elective_pv
    }
}

/// The death benefit walk, mirroring `spec_death_pv` step for step.
fn death_walk(
    t: &MortalityTable,
    glwb: &GlwbFeatures,
    policy: &Policy,
    m: u32,
    end: u32,
    activation: Option<u32>,
    av: i64,
    bb: i64,
    surv: i64,
    disc: i64,
    v_death: i64,
) -> (r: i64)
    requires
        t.wf(),
        glwb.wf(),
        policy.wf(),
        m <= 100_000,
        end <= 100_000,
        0 <= av <= MONEY_CAP,
        0 <= bb <= MONEY_CAP,
        0 <= surv <= RATE_SCALE,
        0 <= disc <= RATE_SCALE,
        0 <= v_death <= RATE_SCALE,
    ensures
        r == spec_death_pv(
            *t,
            *glwb,
            *policy,
            m as int,
            end as int,
            if activation is Some {
                Some(activation->0 as int)
            } else {
                None
            },
            av as int,
            bb as int,
            surv as int,
            disc as int,
            v_death as int,
        ),
        0 <= r <= MONEY_CAP,
    decreases end - m,
{
    if m >= end || surv <= 0 {
        return 0;
    }
    let active = match activation {
        Some(a) => m >= a,
        None => false,
    };
    let age = policy.attained_age(m);
    let q = t.monthly_rate(age, policy.gender, m);
    let contribution = mul_money_rate(mul_money_rate(av, mul_rate_probs(surv, q)), disc);
    let (av1, bb1) = reserve_step(glwb, policy, m, active, q, av, bb);
    let rest = death_walk(
        t,
        glwb,
        policy,
        m + 1,
        end,
        activation,
        av1,
        bb1,
        mul_rate_probs(surv, RATE_SCALE - q),
        mul_rate_probs(disc, v_death),
        v_death,
    );
    if contribution + rest > MONEY_CAP {
        MONEY_CAP
    } else {
        contribution + rest
    }
}

/// The income walk, mirroring `spec_income_pv` step for step.
fn income_walk(
    t: &MortalityTable,
    policy: &Policy,
    m: u32,
    end: u32,
    activation: u32,
    monthly_income: i64,
    surv: i64,
    disc: i64,
    v: i64,
) -> (r: i64)
    requires
        t.wf(),
        policy.wf(),
        m <= 100_000,
        end <= 100_000,
        0 <= monthly_income <= MONEY_CAP,
        0 <= surv <= RATE_SCALE,
        0 <= disc <= RATE_SCALE,
        0 <= v <= RATE_SCALE,
    ensures
        r == spec_income_pv(
            *t,
            *policy,
            m as int,
            end as int,
            activation as int,
            monthly_income as int,
            surv as int,
            disc as int,
            v as int,
        ),
        0 <= r <= MONEY_CAP,
    decreases end - m,
{
    if m >= end || surv <= 0 {
        return 0;
    }
    let age = policy.attained_age(m);
    let q = t.monthly_rate(age, policy.gender, m);
    let contribution: i64 = if m >= activation {
        mul_money_rate(mul_money_rate(monthly_income, surv), disc)
    } else {
        0
    };
    let rest = income_walk(
        t,
        policy,
        m + 1,
        end,
        activation,
        monthly_income,
        mul_rate_probs(surv, RATE_SCALE - q),
        mul_rate_probs(disc, v),
        v,
    );
    if contribution + rest > MONEY_CAP {
        MONEY_CAP
    } else {
        contribution + rest
    }
}

/// One reserve-side projection step, mirroring `spec_reserve_step`.
fn reserve_step(glwb: &GlwbFeatures, policy: &Policy, m: u32, active: bool, q: i64, av: i64, bb: i64) -> (r: (
    i64,
    i64,
))
    requires
        glwb.wf(),
        policy.wf(),
        m <= 100_000,
        0 <= q <= RATE_SCALE,
        0 <= av <= MONEY_CAP,
        0 <= bb <= MONEY_CAP,
    ensures
        (r.0 as int, r.1 as int) == spec_reserve_step(
            *glwb,
            *policy,
            m as int,
            active,
            q as int,
            av as int,
            bb as int,
        ),
        0 <= r.0 <= MONEY_CAP,
        0 <= r.1 <= MONEY_CAP,
{
    let mipy = policy.month_in_policy_year(m);
    let py = policy.policy_year(m);
    let age = policy.attained_age(m);
    let rider_charge: i64 = if m % 12 == 0 {
        mul_money_rate(
            bb,
            if active {
                glwb.post_activation_charge
            } else {
                glwb.pre_activation_charge
            },
        )
    } else {
        0
    };
    let swd: i64 = if active {
        mul_money_rate(bb, glwb.payout_factors.get_single_life(age)) / 12
    } else {
        0
    };
    let av1: i64 = if av - swd - rider_charge > 0 {
        av - swd - rider_charge
    } else {
        0
    };
    let bb1: i64 = if !active && mipy == 12 && py <= policy.sc_period as u32 {
        let py10: i64 = if py < 10 {
            py as i64
        } else {
            10
        };
        let py10_prev: i64 = if py - 1 < 10 {
            (py - 1) as i64
        } else {
            10
        };
        proof {
            assert(0 <= glwb.rollup_rate as int * py10 as int <= 10_000_000_000
                && 0 <= glwb.rollup_rate as int * py10_prev as int <= 10_000_000_000)
                by (nonlinear_arith)
                requires
                    0 <= glwb.rollup_rate <= 1_000_000_000,
                    0 <= py10 <= 10,
                    0 <= py10_prev <= 10,
            ;
        }
        let num: i64 = RATE_SCALE + glwb.bonus_rate + glwb.rollup_rate * py10;
        let den: i64 = RATE_SCALE + glwb.bonus_rate + glwb.rollup_rate * py10_prev;
        proof {
            crate::fixed::lemma_i64_product_fits(bb as int, num as int);
            vstd::arithmetic::div_mod::lemma_div_pos_is_pos(bb as int * num as int, den as int);
        }
        let rolled: i128 = (bb as i128) * (num as i128) / (den as i128);
        if rolled > MONEY_CAP as i128 {
            MONEY_CAP
        } else {
            rolled as i64
        }
    } else {
        bb
    };
    (mul_money_rate(av1, RATE_SCALE - q), mul_money_rate(bb1, RATE_SCALE - q))
}

} // verus!
