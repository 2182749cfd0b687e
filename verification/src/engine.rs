//! Core projection engine: the monthly loop that gathers decrement rates,
//! allocates the decrement pool proportionally, rolls the account value,
//! applies compensation and hedge gains, and rolls the benefit base up.

use vstd::prelude::*;
use crate::fixed::{
    RATE_SCALE, MONEY_CAP, scale_down, scale_down_signed, div_trunc, spec_monthly_from_annual,
    monthly_from_annual, spec_monthly_compound_factor, monthly_compound_factor, spec_prorate,
    prorate, spec_frac_pow_12, frac_pow_12, mul_money_rate, mul_rate_signed, mul_capped, abs_i,
};
use crate::policy::{Policy, CreditingStrategy};
use crate::assumptions::Assumptions;
use crate::state::ProjectionState;
use crate::cashflows::{CashflowRow, ProjectionResult};
use crate::mortality::{spec_baseline_annual, spec_improvement_rate, spec_monthly_mortality};
use crate::product::{spec_sc_rate, spec_band_rate};
use crate::pwd::{spec_fpw_pct, spec_annual_pwd_rate};
use crate::lapse::{spec_monthly_lapse_rate, spec_base_component, spec_dynamic_component, spec_itm, spec_skew_num};

verus! {

/// Hedge and derivative parameters for indexed cells, all annual scaled rates.
#[derive(Debug, Clone, Copy)]
pub struct HedgeParams {
    /// Option budget rate: what the derivative costs.
    pub option_budget: i64,
    /// Derivative appreciation rate.
    pub appreciation_rate: i64,
    /// Premium financing fee rate.
    pub financing_fee: i64,
}

impl HedgeParams {
    pub open spec fn wf(self) -> bool {
        &&& 0 <= self.option_budget <= RATE_SCALE
        &&& 0 <= self.appreciation_rate <= RATE_SCALE
        &&& 0 <= self.financing_fee <= RATE_SCALE
    }

    /// The standard parameters: a 3.15% option budget, 20% appreciation and a
    /// 5% financing fee.
    pub fn default_params() -> (r: Self)
        ensures
            r.wf(),
            r.option_budget == 31_500_000,
            r.appreciation_rate == 200_000_000,
            r.financing_fee == 50_000_000,
    {
        HedgeParams {
            option_budget: 31_500_000,
            appreciation_rate: 200_000_000,
            financing_fee: 50_000_000,
        }
    }
}

/// Approach for crediting interest to the account value.
#[derive(Debug, Clone, Copy)]
pub enum CreditingApproach {
    /// Fixed spread: one twelfth of budget plus kicker each month.
    OptionBudget { budget_rate: i64, equity_kicker: i64 },
    /// Scenario crediting: the participated index return clamped between a
    /// floor and a cap, spread over twelve months.
    ScenarioBased { floor: i64, cap: i64, participation: i64, index_return: i64 },
    /// A twelfth of a fixed annual rate each month.
    Fixed(i64),
    /// An annual credit paid in the first month of each policy year after the
    /// first, at half rate once the year credited for passes ten.
    IndexedAnnual { annual_rate: i64 },
    /// Dispatch on the cell's own crediting strategy: fixed cells compound
    /// monthly, indexed cells take the annual credit; both step down to half
    /// rate after policy year ten.
    PolicyBased { fixed_annual_rate: i64, indexed_annual_rate: i64 },
}

impl CreditingApproach {
    pub open spec fn wf(self) -> bool {
        match self {
            CreditingApproach::OptionBudget { budget_rate, equity_kicker } => {
                &&& 0 <= budget_rate <= RATE_SCALE
                &&& 0 <= equity_kicker <= RATE_SCALE
                &&& budget_rate + equity_kicker <= RATE_SCALE
            },
            CreditingApproach::ScenarioBased { floor, cap, participation, index_return } => {
                &&& -(RATE_SCALE as int) <= floor <= cap <= RATE_SCALE
                &&& abs_i(participation as int) <= 10 * RATE_SCALE
                &&& abs_i(index_return as int) <= 10 * RATE_SCALE
            },
            CreditingApproach::Fixed(rate) => 0 <= rate <= RATE_SCALE,
            CreditingApproach::IndexedAnnual { annual_rate } => 0 <= annual_rate <= RATE_SCALE,
            CreditingApproach::PolicyBased { fixed_annual_rate, indexed_annual_rate } => {
                &&& 0 <= fixed_annual_rate <= RATE_SCALE
                &&& 0 <= indexed_annual_rate <= RATE_SCALE
            },
        }
    }
}

/// The monthly credited rate of an approach (see the variants for the rules).
pub open spec fn spec_credited_rate(
    c: CreditingApproach,
    strategy: CreditingStrategy,
    policy_year: int,
    month_in_policy_year: int,
) -> int {
    match c {
        CreditingApproach::OptionBudget { budget_rate, equity_kicker } => (budget_rate
            + equity_kicker) / 12,
        CreditingApproach::ScenarioBased { floor, cap, participation, index_return } => {
            let raw = scale_down_signed(index_return as int, participation as int);
            let clamped = if raw < floor {
                floor as int
            } else if raw > cap {
                cap as int
            } else {
                raw
            };
            div_trunc(clamped, 12)
        },
        CreditingApproach::Fixed(rate) => rate as int / 12,
        CreditingApproach::IndexedAnnual { annual_rate } => {
            if month_in_policy_year == 1 && policy_year > 1 {
                if policy_year - 1 <= 10 {
                    annual_rate as int
                } else {
                    annual_rate as int / 2
                }
            } else {
                0
            }
        },
        CreditingApproach::PolicyBased { fixed_annual_rate, indexed_annual_rate } => {
            match strategy {
                CreditingStrategy::Fixed => {
                    let annual = if policy_year <= 10 {
                        fixed_annual_rate as int
                    } else {
                        fixed_annual_rate as int / 2
                    };
                    spec_monthly_compound_factor(annual) - RATE_SCALE
                },
                CreditingStrategy::Indexed => {
                    if month_in_policy_year == 1 && policy_year > 1 {
                        if policy_year - 1 <= 10 {
                            indexed_annual_rate as int
                        } else {
                            indexed_annual_rate as int / 2
                        }
                    } else {
                        0
                    }
                },
            }
        },
    }
}

/// Configuration for a projection run.
#[derive(Debug, Clone, Copy)]
pub struct ProjectionConfig {
    /// Number of months to project.
    pub projection_months: u32,
    /// Credited rate approach.
    pub crediting: CreditingApproach,
    /// Whether to track detailed cashflows.
    pub detailed_output: bool,
    /// Treasury rate change assumption, scaled (reserved; not used in rates).
    pub treasury_change: i64,
    /// Override lapse with a fixed annual rate spread evenly, month one zero.
    pub fixed_lapse_rate: Option<i64>,
    /// Hedge parameters for indexed cells; none disables hedge gains.
    pub hedge_params: Option<HedgeParams>,
}

impl ProjectionConfig {
    pub open spec fn wf(self) -> bool {
        &&& self.projection_months <= 100_000
        &&& self.crediting.wf()
        &&& (self.fixed_lapse_rate matches Some(r) ==> 0 <= r <= RATE_SCALE)
        &&& (self.hedge_params matches Some(h) ==> h.wf())
    }

    /// The standard run: 768 months, net zero crediting in year one, the
    /// standard hedge parameters, no lapse override.
    pub fn default_config() -> (r: Self)
        ensures
            r.wf(),
            r.projection_months == 768,
            r.fixed_lapse_rate is None,
            r.hedge_params is Some,
            r.detailed_output,
    {
        ProjectionConfig {
            projection_months: 768,
            crediting: CreditingApproach::OptionBudget { budget_rate: 0, equity_kicker: 0 },
            detailed_output: true,
            treasury_change: 0,
            fixed_lapse_rate: None,
            hedge_params: Some(HedgeParams::default_params()),
        }
    }
}

/// Rider charge expressed as an account value decrement rate: the charge rate
/// on the benefit base over the account value, zero on an exhausted account.
/// The rate is deliberately capped at two units: below the cap the
/// spreadsheet-parity behaviour is kept exactly (the monthly persistency may
/// go negative when the charge overruns the account), and the cap only binds
/// in months where the annual charge on the base exceeds twice the remaining
/// account value, where it keeps the decrement pool finite.
pub open spec fn spec_rider_rate(charge_rate: int, bb: int, av: int) -> int {
    if av <= 0 {
        0
    } else {
        let q = (charge_rate * bb) / av;
        if q > 2 * RATE_SCALE {
            2 * RATE_SCALE as int
        } else {
            q
        }
    }
}

/// Monthly account value persistency: the product of the survival factors of
/// mortality, lapse, withdrawal and the rider charge rate.  The last factor
/// may be negative when the rider charge overruns the account, matching the
/// reference spreadsheet.
pub open spec fn spec_av_monthly_persistency(qm: int, ql: int, qp: int, rr: int) -> int {
    scale_down_signed(
        scale_down(scale_down(RATE_SCALE - qm, RATE_SCALE - ql), RATE_SCALE - qp),
        RATE_SCALE - rr,
    )
}

/// Monthly benefit base persistency: mortality, lapse and withdrawal survival.
pub open spec fn spec_bb_monthly_persistency(qm: int, ql: int, qp: int) -> int {
    scale_down(scale_down(RATE_SCALE - qm, RATE_SCALE - ql), RATE_SCALE - qp)
}

/// The lapse share splits into the policyholder's net withdrawal and the
/// retained surrender charge: this is the net-of-charge factor.
pub open spec fn spec_net_of_sc_factor(fpw: int, sc: int) -> int {
    fpw + scale_down(RATE_SCALE - fpw, RATE_SCALE - sc)
}

/// Year-boundary rollup ratio applied to the persisted benefit base:
/// `(1 + bonus + rollup * min(py, 10)) / (1 + bonus + rollup * min(py - 1, 10))`,
/// as a (numerator, denominator) pair of scaled values.
pub open spec fn spec_rollup_ratio(bonus: int, rollup: int, policy_year: int) -> (int, int) {
    let py = if policy_year < 10 {
        policy_year
    } else {
        10
    };
    let py_prev = if policy_year - 1 < 10 {
        policy_year - 1
    } else {
        10
    };
    (RATE_SCALE + bonus + rollup * py, RATE_SCALE + bonus + rollup * py_prev)
}

/// Benefit base at the end of a month: decayed by the month's persistency,
/// then rolled up at the last month of a policy year inside the surrender
/// charge period while income is off, capped at the kernel ceiling.
#[verifier::opaque]
pub open spec fn spec_bb_update(
    bb: int,
    qm: int,
    ql: int,
    qp: int,
    income_activated: bool,
    month_in_policy_year: int,
    policy_year: int,
    sc_period: int,
    bonus: int,
    rollup: int,
) -> int {
    let persisted = scale_down(bb, spec_bb_monthly_persistency(qm, ql, qp));
    if !income_activated && month_in_policy_year == 12 && policy_year <= sc_period {
        let (num, den) = spec_rollup_ratio(bonus, rollup, policy_year);
        let rolled = (persisted * num) / den;
        if rolled > MONEY_CAP {
            MONEY_CAP as int
        } else {
            rolled
        }
    } else {
        persisted
    }
}

/// Chargeback for a month: the commission recovered from lives lost, the
/// first-month commission prorated by the lives lost this month relative to
/// the initial lives, times the chargeback factor.
#[verifier::opaque]
pub open spec fn spec_chargeback(
    lives: int,
    lost_rate: int,
    initial_lives: int,
    first_month_commission: int,
    factor: int,
) -> int {
    if initial_lives <= 0 {
        0
    } else {
        let lr = (lives * lost_rate) / initial_lives;
        let lr_capped = if lr > RATE_SCALE {
            RATE_SCALE as int
        } else {
            lr
        };
        scale_down(scale_down(first_month_commission, lr_capped), factor)
    }
}

/// Lagged policy year for hedge reimbursement: at the first month of a year
/// the derivatives being settled were bought in the prior year.
pub open spec fn spec_lagged_policy_year(policy_year: int, month_in_policy_year: int) -> int {
    if month_in_policy_year == 1 && policy_year > 1 {
        policy_year - 1
    } else {
        policy_year
    }
}

/// Months the derivative was held before this month's decrements.
pub open spec fn spec_lagged_month(projection_month: int, month_in_policy_year: int) -> int {
    if projection_month == 1 {
        1
    } else if month_in_policy_year == 1 {
        12
    } else {
        month_in_policy_year - 1
    }
}

/// Attained age at the month rider income first becomes active: the first
/// projection month's age when income is already on (or its year already
/// reached) there, else the age at the start of the activation year.
pub open spec fn spec_locked_age(policy: Policy) -> int {
    if policy.income_activated || policy.glwb_start_year as int <= crate::policy::spec_policy_year(
        policy.duration_months as int,
        1,
    ) {
        crate::policy::spec_attained_age(
            policy.issue_age as int,
            policy.duration_months as int,
            1,
        )
    } else {
        let a = policy.issue_age + policy.glwb_start_year - 1;
        if a > 255 {
            255
        } else {
            a
        }
    }
}

/// The payout rate locked the first month income is active: the single-life
/// band rate at the locked age, frozen for every later month.
pub open spec fn spec_locked_rate(payout: Seq<(u8, u8, i64)>, policy: Policy) -> int {
    spec_band_rate(payout, spec_locked_age(policy), 0)
}

/// The balance sheet the lapse model saw for row `i`: the prior month's
/// opening values (captured before that month's rollup), or the projection's
/// starting values for the first row.
pub open spec fn spec_prior_av(policy: Policy, rows: Seq<CashflowRow>, i: int) -> int {
    if i == 0 {
        (if policy.current_av is Some {
            policy.current_av->0
        } else {
            policy.initial_premium
        }) as int
    } else {
        rows[i - 1].bop_av as int
    }
}

/// The prior month's opening benefit base for row `i` (see `spec_prior_av`).
pub open spec fn spec_prior_bb(policy: Policy, rows: Seq<CashflowRow>, i: int) -> int {
    if i == 0 {
        (if policy.current_benefit_base is Some {
            policy.current_benefit_base->0
        } else {
            policy.initial_benefit_base
        }) as int
    } else {
        rows[i - 1].bop_benefit_base as int
    }
}

/// The lives in force at the start of row `i`'s month.
pub open spec fn spec_prev_lives(policy: Policy, rows: Seq<CashflowRow>, i: int) -> int {
    if i == 0 {
        policy.initial_pols as int
    } else {
        rows[i - 1].lives as int
    }
}

/// Every rate of a row is the assumption model's value at the row's timing
/// and the lapse model's lagged moneyness: the rates are a function of the
/// policy, the assumptions and the configuration alone.  `pm` is the row's
/// projection month; `prior_av`/`prior_bb` the lagged balance sheet.
#[verifier::opaque]
pub open spec fn spec_row_rates_v(
    a: Assumptions,
    config: ProjectionConfig,
    policy: Policy,
    row: CashflowRow,
    pm: int,
    prior_av: int,
    prior_bb: int,
) -> bool {
    let prior_itm = spec_itm(prior_bb, prior_av);
    &&& row.baseline_mortality == spec_baseline_annual(
        a.mortality.base_rates@,
        a.mortality.age_factors@,
        row.attained_age as int,
        policy.gender,
    )
    &&& row.mortality_improvement == spec_improvement_rate(
        a.mortality.improvement_rates@,
        row.attained_age as int,
        policy.gender,
    )
    &&& row.final_mortality == spec_monthly_mortality(
        a.mortality,
        row.attained_age as int,
        policy.gender,
        pm,
    )
    &&& row.surrender_charge == spec_sc_rate(
        a.product.base.surrender_charges.view(),
        row.policy_year as int,
    )
    &&& row.fpw_pct == spec_fpw_pct(
        a.pwd.rmd.view(),
        a.pwd.free_pct as int,
        row.policy_year as int,
        row.attained_age as int,
        policy.qual_status,
    )
    &&& (row.policy_year == 1 ==> row.non_systematic_pwd_rate == 0)
    &&& (row.policy_year != 1 ==> row.non_systematic_pwd_rate == spec_monthly_from_annual(
        spec_annual_pwd_rate(
            a.pwd.rmd.view(),
            a.pwd.free_utilization.view(),
            a.pwd.free_pct as int,
            row.policy_year as int,
            row.attained_age as int,
            policy.qual_status,
            row.glwb_activated,
        ),
        15,
    ))
    &&& row.lapse_skew == spec_skew_num(
        row.policy_year as int,
        row.month_in_policy_year as int,
        policy.sc_period as int,
    )
    &&& row.base_lapse_component == spec_base_component(
        a.lapse,
        row.policy_year as int,
        row.glwb_activated,
        policy.benefit_base_bucket,
        policy.sc_period as int,
    )
    &&& row.dynamic_lapse_component == spec_dynamic_component(
        a.lapse.coefficients,
        prior_itm,
        row.glwb_activated,
    )
    &&& (row.bop_av <= 0 ==> row.final_lapse_rate == 0)
    &&& (row.bop_av > 0 && config.fixed_lapse_rate is Some ==> row.final_lapse_rate == (
    if pm == 1 {
        0int
    } else {
        spec_monthly_from_annual(config.fixed_lapse_rate->0 as int, 15)
    }))
    &&& (row.bop_av > 0 && config.fixed_lapse_rate is None ==> row.final_lapse_rate
        == spec_monthly_lapse_rate(
        a.lapse,
        pm,
        row.policy_year as int,
        row.month_in_policy_year as int,
        row.glwb_activated,
        prior_itm,
        policy.sc_period as int,
        policy.benefit_base_bucket,
    ))
    &&& row.rider_charge_rate == (if pm % 12 == 0 {
        if row.glwb_activated {
            a.product.glwb.post_activation_charge as int
        } else {
            a.product.glwb.pre_activation_charge as int
        }
    } else {
        0int
    })
    &&& row.credited_rate == spec_credited_rate(
        config.crediting,
        policy.crediting_strategy,
        row.policy_year as int,
        row.month_in_policy_year as int,
    )
    &&& (!row.glwb_activated ==> row.systematic_withdrawal == 0)
    &&& row.rollup_rate == (if row.policy_year <= policy.sc_period as u32
        && !row.glwb_activated {
        a.product.glwb.rollup_rate as int / 12
    } else {
        0int
    })
}

/// Every money figure of a row follows from the row's own rates and opening
/// balances by the kernel's formulas; the lives-weighted figures and the
/// cumulative factors chain from the prior month's values.
#[verifier::opaque]
pub open spec fn spec_row_money_v(
    a: Assumptions,
    policy: Policy,
    row: CashflowRow,
    prev_lives: int,
    prev_avp: int,
    prev_bbp: int,
    prev_livesp: int,
) -> bool {
    let wd_base: int = if row.bop_av - row.systematic_withdrawal > 0 {
        row.bop_av - row.systematic_withdrawal as int
    } else {
        0int
    };
    &&& row.pre_decrement_av == scale_down(wd_base, RATE_SCALE + row.credited_rate)
    &&& row.interest_credits_dec == row.pre_decrement_av - wd_base
    &&& (
        row.mortality_dec as int,
        row.lapse_dec as int,
        row.pwd_dec as int,
        row.rider_charges_dec as int,
        row.surrender_charges_dec as int,
    ) == spec_decrement_shares(
        row.pre_decrement_av as int,
        row.final_mortality as int,
        row.final_lapse_rate as int,
        row.non_systematic_pwd_rate as int,
        spec_rider_rate(
            row.rider_charge_rate as int,
            row.bop_benefit_base as int,
            row.bop_av as int,
        ),
        row.fpw_pct as int,
        row.surrender_charge as int,
        row.systematic_withdrawal as int,
    )
    &&& row.eop_av == {
        let v = row.bop_av + row.interest_credits_dec - (row.mortality_dec + row.lapse_dec
            + row.pwd_dec + row.rider_charges_dec + row.surrender_charges_dec);
        if v < 0 {
            0int
        } else if v > MONEY_CAP {
            MONEY_CAP as int
        } else {
            v
        }
    }
    &&& row.mortality_cf == spec_weighted(row.mortality_dec as int, prev_lives)
    &&& row.lapse_cf == spec_weighted(row.lapse_dec as int, prev_lives)
    &&& row.pwd_cf == spec_weighted(row.pwd_dec as int, prev_lives)
    &&& row.rider_charges_cf == spec_weighted(row.rider_charges_dec as int, prev_lives)
    &&& row.surrender_charges_cf == spec_weighted(row.surrender_charges_dec as int, prev_lives)
    &&& (row.interest_credits_dec >= 0 ==> row.interest_credits_cf == spec_weighted(
        row.interest_credits_dec as int,
        prev_lives,
    ))
    &&& (row.interest_credits_dec < 0 ==> row.interest_credits_cf == -spec_weighted(
        -(row.interest_credits_dec as int),
        prev_lives,
    ))
    &&& row.av_persistency == scale_down(
        prev_avp,
        spec_lives_factor(row.final_mortality as int, row.final_lapse_rate as int),
    )
    &&& row.bb_persistency == scale_down(
        prev_bbp,
        spec_lives_factor(row.final_mortality as int, row.final_lapse_rate as int),
    )
    &&& row.lives_persistency == scale_down(
        prev_livesp,
        spec_lives_factor(row.final_mortality as int, row.final_lapse_rate as int),
    )
    &&& row.lives == scale_down(
        prev_lives,
        spec_lives_factor(row.final_mortality as int, row.final_lapse_rate as int),
    )
    &&& row.expenses == scale_down(
        row.eop_av as int,
        a.product.base.expense_rate_of_av as int,
    ) / 12
}

/// Every compensation figure of a row follows from the schedule, the month's
/// position, the prior month's lives and the first month's commissions.
#[verifier::opaque]
pub open spec fn spec_row_comp_v(
    a: Assumptions,
    config: ProjectionConfig,
    policy: Policy,
    row: CashflowRow,
    pm: int,
    prev_lives: int,
    initial_lives: int,
    first_month_commission: int,
) -> bool {
    &&& (pm != 1 ==> row.agent_commission == 0 && row.imo_override == 0
        && row.imo_conversion_owed == 0 && row.wholesaler_override == 0
        && row.wholesaler_conversion_owed == 0)
    &&& (pm == 1 ==> row.agent_commission == scale_down(
        policy.initial_premium as int,
        a.product.commissions.agent_rate as int,
    ) && row.imo_override == scale_down(
        policy.initial_premium as int,
        a.product.commissions.imo_override_rate as int,
    ) && row.imo_conversion_owed == scale_down(
        policy.initial_premium as int,
        a.product.commissions.imo_conversion_rate as int,
    ) && row.wholesaler_override == scale_down(
        policy.initial_premium as int,
        a.product.commissions.wholesaler_override_rate as int,
    ) && row.wholesaler_conversion_owed == scale_down(
        policy.initial_premium as int,
        a.product.commissions.wholesaler_conversion_rate as int,
    ))
    &&& row.bonus_comp == (if pm == 13 {
        scale_down(row.bop_av as int, a.product.commissions.bonus_comp_rate as int)
    } else {
        0int
    })
    &&& row.chargebacks == spec_chargeback(
        prev_lives,
        RATE_SCALE - spec_lives_factor(row.final_mortality as int, row.final_lapse_rate as int),
        initial_lives,
        first_month_commission,
        if row.policy_year != 1 {
            0int
        } else if pm <= 6 {
            RATE_SCALE as int
        } else {
            RATE_SCALE as int / 2
        },
    )
    &&& ((policy.crediting_strategy == CreditingStrategy::Fixed || config.hedge_params is None)
        ==> row.hedge_gains == 0 && row.net_index_credit_reimbursement == 0)
    &&& ((policy.crediting_strategy == CreditingStrategy::Indexed && config.hedge_params
        is Some) ==> (row.net_index_credit_reimbursement as int, row.hedge_gains as int)
        == spec_hedge_pair(
        config.hedge_params->0,
        row.bop_av as int,
        row.credited_rate as int,
        spec_av_monthly_persistency(
            row.final_mortality as int,
            row.final_lapse_rate as int,
            row.non_systematic_pwd_rate as int,
            spec_rider_rate(
                row.rider_charge_rate as int,
                row.bop_benefit_base as int,
                row.bop_av as int,
            ),
        ),
        pm,
        row.policy_year as int,
        row.month_in_policy_year as int,
    ))
    &&& row.total_net_cashflow == row.premium - row.mortality_dec - row.lapse_dec - row.pwd_dec
        - row.expenses - (row.agent_commission + row.imo_override + row.wholesaler_override
        + row.bonus_comp) + row.chargebacks + row.hedge_gains
}

/// Row `i`'s rates are determined by the inputs (see `spec_row_rates_v`).
#[verifier::opaque]
pub open spec fn spec_row_rates(
    a: Assumptions,
    config: ProjectionConfig,
    policy: Policy,
    rows: Seq<CashflowRow>,
    i: int,
) -> bool {
    spec_row_rates_v(
        a,
        config,
        policy,
        rows[i],
        i + 1,
        spec_prior_av(policy, rows, i),
        spec_prior_bb(policy, rows, i),
    )
}

/// Row `i`'s money figures are determined by the inputs (see
/// `spec_row_money_v`).
#[verifier::opaque]
pub open spec fn spec_row_money(
    a: Assumptions,
    policy: Policy,
    rows: Seq<CashflowRow>,
    i: int,
) -> bool {
    spec_row_money_v(
        a,
        policy,
        rows[i],
        spec_prev_lives(policy, rows, i),
        if i == 0 {
            RATE_SCALE as int
        } else {
            rows[i - 1].av_persistency as int
        },
        if i == 0 {
            RATE_SCALE as int
        } else {
            rows[i - 1].bb_persistency as int
        },
        if i == 0 {
            RATE_SCALE as int
        } else {
            rows[i - 1].lives_persistency as int
        },
    )
}

/// Row `i`'s compensation figures are determined by the inputs (see
/// `spec_row_comp_v`).
#[verifier::opaque]
pub open spec fn spec_row_comp(
    a: Assumptions,
    config: ProjectionConfig,
    policy: Policy,
    rows: Seq<CashflowRow>,
    i: int,
) -> bool {
    spec_row_comp_v(
        a,
        config,
        policy,
        rows[i],
        i + 1,
        spec_prev_lives(policy, rows, i),
        policy.initial_pols as int,
        rows[0].agent_commission + rows[0].imo_override + rows[0].wholesaler_override as int,
    )
}

/// All three determinism facts of row `i` together.
#[verifier::opaque]
pub open spec fn spec_row_determined(
    a: Assumptions,
    config: ProjectionConfig,
    policy: Policy,
    rows: Seq<CashflowRow>,
    i: int,
) -> bool {
    &&& spec_row_rates(a, config, policy, rows, i)
    &&& spec_row_money(a, policy, rows, i)
    &&& spec_row_comp(a, config, policy, rows, i)
}

/// The combined determinism fact of a row splits into its rates, money and
/// compensation parts.
pub proof fn lemma_row_determined_parts(
    a: Assumptions,
    config: ProjectionConfig,
    policy: Policy,
    rows: Seq<CashflowRow>,
    i: int,
)
    requires
        spec_row_determined(a, config, policy, rows, i),
    ensures
        spec_row_rates(a, config, policy, rows, i),
        spec_row_money(a, policy, rows, i),
        spec_row_comp(a, config, policy, rows, i),
{
    reveal(spec_row_determined);
}

/// Appending a row leaves every earlier row's determinism facts in place:
/// the three row predicates read only the row itself, its predecessor and
/// the first row.
proof fn lemma_row_preds_push(
    a: Assumptions,
    config: ProjectionConfig,
    policy: Policy,
    rows: Seq<CashflowRow>,
    x: CashflowRow,
    j: int,
)
    requires
        0 <= j < rows.len(),
        spec_row_determined(a, config, policy, rows, j),
    ensures
        spec_row_determined(a, config, policy, rows.push(x), j),
{
    reveal(spec_row_determined);
    reveal(spec_row_rates);
    reveal(spec_row_money);
    reveal(spec_row_comp);
    assert(rows.push(x)[j] == rows[j]);
    if j > 0 {
        assert(rows.push(x)[j - 1] == rows[j - 1]);
    }
    assert(rows.push(x)[0] == rows[0]);
    assert(spec_prior_av(policy, rows.push(x), j) == spec_prior_av(policy, rows, j));
    assert(spec_prior_bb(policy, rows.push(x), j) == spec_prior_bb(policy, rows, j));
    assert(spec_prev_lives(policy, rows.push(x), j) == spec_prev_lives(policy, rows, j));
}

/// Main projection engine.
pub struct ProjectionEngine<'a> {
    pub assumptions: &'a Assumptions,
    pub config: ProjectionConfig,
}

impl<'a> ProjectionEngine<'a> {
    pub open spec fn wf(self) -> bool {
        &&& self.assumptions.wf()
        &&& self.config.wf()
    }

    /// Create an engine over shared assumptions and a run configuration.
    pub fn new(assumptions: &'a Assumptions, config: ProjectionConfig) -> (r: Self)
        requires
            assumptions.wf(),
            config.wf(),
        ensures
            r.wf(),
            r.config == config,
            r.assumptions == assumptions,
    {
        ProjectionEngine { assumptions, config }
    }

    /// Monthly credited rate for the configured approach and the cell's
    /// crediting strategy.
    fn calculate_credited_rate(&self, policy: &Policy, state: &ProjectionState) -> (r: i64)
        requires
            self.wf(),
        ensures
            r == spec_credited_rate(
                self.config.crediting,
                policy.crediting_strategy,
                state.policy_year as int,
                state.month_in_policy_year as int,
            ),
            -(RATE_SCALE as int) <= r <= RATE_SCALE,
    {
        match &self.config.crediting {
            CreditingApproach::OptionBudget { budget_rate, equity_kicker } => (*budget_rate
                + *equity_kicker) / 12,
            CreditingApproach::ScenarioBased { floor, cap, participation, index_return } => {
                proof {
                    crate::fixed::lemma_signed_product_fits(
                        *index_return as int,
                        *participation as int,
                    );
                }
                let raw = mul_rate_signed(*index_return, *participation);
                let clamped: i64 = if raw < *floor {
                    *floor
                } else if raw > *cap {
                    *cap
                } else {
                    raw
                };
                crate::fixed::div_small(clamped, 12)
            },
            CreditingApproach::Fixed(rate) => *rate / 12,
            CreditingApproach::IndexedAnnual { annual_rate } => {
                if state.month_in_policy_year == 1 && state.policy_year > 1 {
                    if state.policy_year - 1 <= 10 {
                        *annual_rate
                    } else {
                        *annual_rate / 2
                    }
                } else {
                    0
                }
            },
            CreditingApproach::PolicyBased { fixed_annual_rate, indexed_annual_rate } => {
                match policy.crediting_strategy {
                    CreditingStrategy::Fixed => {
                        let annual = if state.policy_year <= 10 {
                            *fixed_annual_rate
                        } else {
                            *fixed_annual_rate / 2
                        };
                        monthly_compound_factor(annual) - RATE_SCALE
                    },
                    CreditingStrategy::Indexed => {
                        if state.month_in_policy_year == 1 && state.policy_year > 1 {
                            if state.policy_year - 1 <= 10 {
                                *indexed_annual_rate
                            } else {
                                *indexed_annual_rate / 2
                            }
                        } else {
                            0
                        }
                    },
                }
            },
        }
    }
}

/// Monthly lives factor: the survival of mortality and lapse together.
pub open spec fn spec_lives_factor(qm: int, ql: int) -> int {
    scale_down(RATE_SCALE - qm, RATE_SCALE - ql)
}

/// Proportional allocation of the decrement pool (see the kernel): the
/// per-cell mortality, lapse net of charge, withdrawal, rider charge and
/// surrender charge decrement dollars.
#[verifier::opaque]
pub open spec fn spec_decrement_shares(
    pre_dec: int,
    qm: int,
    ql: int,
    qp: int,
    rr: int,
    fpw: int,
    sc: int,
    swd: int,
) -> (int, int, int, int, int) {
    let avmp = spec_av_monthly_persistency(qm, ql, qp, rr);
    let pool = scale_down_signed(pre_dec, RATE_SCALE - avmp);
    let sum = qm + ql + qp + rr;
    if sum > 0 {
        let mort = spec_prorate(pool, qm, sum);
        let lshare = spec_prorate(pool, ql, sum);
        let lapse = scale_down(lshare, spec_net_of_sc_factor(fpw, sc));
        let surr = scale_down(lshare, scale_down(RATE_SCALE - fpw, sc));
        let pwd = spec_prorate(pool, qp, sum) + swd;
        let rider = spec_prorate(pool, rr, sum);
        (mort, lapse, pwd, rider, surr)
    } else {
        (0, 0, swd, 0, 0)
    }
}

/// Cost of the derivative bought for the month: the option budget at the
/// lagged rate multiplier, grossed up by the financing fee.
pub open spec fn spec_option_cost(params: HedgeParams, mult: int) -> int {
    scale_down(scale_down(params.option_budget as int, mult), RATE_SCALE + params.financing_fee)
}

/// Hedge components for an indexed cell: the net index credit reimbursement
/// and the total hedge gains from non-persisting account value.
#[verifier::opaque]
pub open spec fn spec_hedge_pair(
    params: HedgeParams,
    bop_av: int,
    credited: int,
    avmp: int,
    projection_month: int,
    policy_year: int,
    month_in_policy_year: int,
) -> (int, int) {
    let mult: int = if spec_lagged_policy_year(policy_year, month_in_policy_year) <= 10 {
        RATE_SCALE as int
    } else {
        RATE_SCALE as int / 2
    };
    let cost = spec_option_cost(params, mult);
    let reimb0 = scale_down_signed(bop_av, credited - cost);
    let reimb = if reimb0 > 0 {
        reimb0
    } else {
        0
    };
    let av_lost = scale_down_signed(bop_av, RATE_SCALE - avmp);
    let net_appreciation = RATE_SCALE + params.appreciation_rate - params.financing_fee;
    let appr = spec_frac_pow_12(
        net_appreciation,
        spec_lagged_month(projection_month, month_in_policy_year) as nat,
    );
    let gains = scale_down(
        scale_down(scale_down(av_lost, params.option_budget as int), mult),
        appr,
    ) + reimb;
    (reimb, gains)
}

/// Benefit base at the end of a month, decayed and rolled up per the kernel.
fn updated_benefit_base(
    bb: i64,
    qm: i64,
    ql: i64,
    qp: i64,
    income_activated: bool,
    month_in_policy_year: u32,
    policy_year: u32,
    sc_period: u32,
    bonus: i64,
    rollup: i64,
) -> (r: i64)
    requires
        0 <= bb <= MONEY_CAP,
        0 <= qm <= RATE_SCALE,
        0 <= ql <= RATE_SCALE,
        0 <= qp <= RATE_SCALE,
        0 <= bonus <= RATE_SCALE,
        0 <= rollup <= RATE_SCALE,
        1 <= policy_year,
    ensures
        r == spec_bb_update(
            bb as int,
            qm as int,
            ql as int,
            qp as int,
            income_activated,
            month_in_policy_year as int,
            policy_year as int,
            sc_period as int,
            bonus as int,
            rollup as int,
        ),
        0 <= r <= MONEY_CAP,
        income_activated ==> r <= bb,
{
    proof {
        reveal(spec_bb_update);
    }
    let f1 = crate::fixed::mul_rate_probs(RATE_SCALE - qm, RATE_SCALE - ql);
    let bbp = crate::fixed::mul_rate_probs(f1, RATE_SCALE - qp);
    let persisted = mul_money_rate(bb, bbp);
    if !income_activated && month_in_policy_year == 12 && policy_year <= sc_period {
        let py10: i64 = if policy_year < 10 {
            policy_year as i64
        } else {
            10
        };
        let py10_prev: i64 = if policy_year - 1 < 10 {
            (policy_year - 1) as i64
        } else {
            10
        };
        proof {
            assert(0 <= rollup as int * py10 as int <= 10_000_000_000
                && 0 <= rollup as int * py10_prev as int <= 10_000_000_000) by (nonlinear_arith)
                requires
                    0 <= rollup <= 1_000_000_000,
                    0 <= py10 <= 10,
                    0 <= py10_prev <= 10,
            ;
        }
        let num: i64 = RATE_SCALE + bonus + rollup * py10;
        let den: i64 = RATE_SCALE + bonus + rollup * py10_prev;
        proof {
            crate::fixed::lemma_i64_product_fits(persisted as int, num as int);
            vstd::arithmetic::div_mod::lemma_div_pos_is_pos(
                persisted as int * num as int,
                den as int,
            );
        }
        let rolled: i128 = (persisted as i128) * (num as i128) / (den as i128);
        if rolled > MONEY_CAP as i128 {
            MONEY_CAP
        } else {
            rolled as i64
        }
    } else {
        persisted
    }
}

/// The decrement and crediting rates of one month, gathered before any money
/// moves.
struct MonthRates {
    baseline_mortality: i64,
    mortality_improvement: i64,
    final_mortality: i64,
    surrender_charge: i64,
    fpw_pct: i64,
    non_systematic_pwd_rate: i64,
    lapse_skew: u32,
    base_lapse_component: i64,
    dynamic_lapse_component: i64,
    final_lapse_rate: i64,
    rider_charge_rate: i64,
    credited_rate: i64,
    systematic_withdrawal: i64,
    rollup_rate: i64,
}

impl<'a> ProjectionEngine<'a> {
    /// Gather the decrement and crediting rates for the month at hand.
    fn calculate_decrements(&self, policy: &Policy, state: &ProjectionState) -> (r: MonthRates)
        requires
            self.wf(),
            policy.wf(),
            state.wf(),
            1 <= state.projection_month <= 100_000,
            1 <= state.policy_year <= 1_000_000,
            1 <= state.month_in_policy_year <= 12,
        ensures
            r.baseline_mortality == spec_baseline_annual(
                self.assumptions.mortality.base_rates@,
                self.assumptions.mortality.age_factors@,
                state.attained_age as int,
                policy.gender,
            ),
            r.mortality_improvement == spec_improvement_rate(
                self.assumptions.mortality.improvement_rates@,
                state.attained_age as int,
                policy.gender,
            ),
            r.final_mortality == spec_monthly_mortality(
                self.assumptions.mortality,
                state.attained_age as int,
                policy.gender,
                state.projection_month as int,
            ),
            r.surrender_charge == spec_sc_rate(
                self.assumptions.product.base.surrender_charges.view(),
                state.policy_year as int,
            ),
            r.fpw_pct == spec_fpw_pct(
                self.assumptions.pwd.rmd.view(),
                self.assumptions.pwd.free_pct as int,
                state.policy_year as int,
                state.attained_age as int,
                policy.qual_status,
            ),
            state.policy_year == 1 ==> r.non_systematic_pwd_rate == 0,
            state.policy_year != 1 ==> r.non_systematic_pwd_rate == spec_monthly_from_annual(
                spec_annual_pwd_rate(
                    self.assumptions.pwd.rmd.view(),
                    self.assumptions.pwd.free_utilization.view(),
                    self.assumptions.pwd.free_pct as int,
                    state.policy_year as int,
                    state.attained_age as int,
                    policy.qual_status,
                    state.income_activated,
                ),
                15,
            ),
            r.lapse_skew == spec_skew_num(
                state.policy_year as int,
                state.month_in_policy_year as int,
                policy.sc_period as int,
            ),
            r.base_lapse_component == spec_base_component(
                self.assumptions.lapse,
                state.policy_year as int,
                state.income_activated,
                policy.benefit_base_bucket,
                policy.sc_period as int,
            ),
            r.dynamic_lapse_component == spec_dynamic_component(
                self.assumptions.lapse.coefficients,
                spec_itm(state.prior_bop_bb as int, state.prior_bop_av as int),
                state.income_activated,
            ),
            state.bop_av <= 0 ==> r.final_lapse_rate == 0,
            state.bop_av > 0 && self.config.fixed_lapse_rate is Some ==> r.final_lapse_rate == (
            if state.projection_month == 1 {
                0int
            } else {
                spec_monthly_from_annual(self.config.fixed_lapse_rate->0 as int, 15)
            }),
            state.bop_av > 0 && self.config.fixed_lapse_rate is None ==> r.final_lapse_rate
                == spec_monthly_lapse_rate(
                self.assumptions.lapse,
                state.projection_month as int,
                state.policy_year as int,
                state.month_in_policy_year as int,
                state.income_activated,
                spec_itm(state.prior_bop_bb as int, state.prior_bop_av as int),
                policy.sc_period as int,
                policy.benefit_base_bucket,
            ),
            state.projection_month == 1 ==> r.final_lapse_rate == 0,
            0 <= r.final_mortality <= RATE_SCALE,
            0 <= r.final_lapse_rate <= RATE_SCALE,
            0 <= r.non_systematic_pwd_rate <= RATE_SCALE,
            0 <= r.fpw_pct <= RATE_SCALE,
            0 <= r.surrender_charge <= RATE_SCALE,
            r.rider_charge_rate == (if state.projection_month % 12 == 0 {
                if state.income_activated {
                    self.assumptions.product.glwb.post_activation_charge as int
                } else {
                    self.assumptions.product.glwb.pre_activation_charge as int
                }
            } else {
                0int
            }),
            0 <= r.rider_charge_rate <= RATE_SCALE,
            r.credited_rate == spec_credited_rate(
                self.config.crediting,
                policy.crediting_strategy,
                state.policy_year as int,
                state.month_in_policy_year as int,
            ),
            -(RATE_SCALE as int) <= r.credited_rate <= RATE_SCALE,
            !state.income_activated ==> r.systematic_withdrawal == 0,
            state.income_activated ==> r.systematic_withdrawal == scale_down(
                state.bop_benefit_base as int,
                if state.locked_payout_rate is Some {
                    state.locked_payout_rate->0 as int
                } else {
                    spec_band_rate(
                        self.assumptions.product.glwb.payout_factors.view(),
                        state.attained_age as int,
                        0,
                    )
                },
            ) / 12,
            0 <= r.systematic_withdrawal <= MONEY_CAP,
            r.rollup_rate == (if state.policy_year <= policy.sc_period as u32
                && !state.income_activated {
                self.assumptions.product.glwb.rollup_rate as int / 12
            } else {
                0int
            }),
    {
        let pm = state.projection_month;
        let py = state.policy_year;
        let mipy = state.month_in_policy_year;
        let age = state.attained_age;
        let activated = state.income_activated;
        let bop_av = state.bop_av;
        let bop_bb = state.bop_benefit_base;
        let baseline_mortality = self.assumptions.mortality.baseline_annual_rate(age, policy.gender);
        let mortality_improvement = self.assumptions.mortality.improvement_rate(age, policy.gender);
        let final_mortality = self.assumptions.mortality.monthly_rate(age, policy.gender, pm);
        let surrender_charge = self.assumptions.product.base.surrender_charges.get_rate(py);
        let fpw_pct = self.assumptions.pwd.get_fpw_pct(py, age, policy.qual_status);
        let non_systematic_pwd_rate = self.assumptions.pwd.monthly_pwd_rate_adjusted(
            py,
            mipy,
            age,
            policy.qual_status,
            activated,
        );
        let prior_itm = state.prior_itm();
        let lapse_skew = self.assumptions.lapse.get_skew(py, mipy, policy.sc_period as u32);
        let base_lapse_component = self.assumptions.lapse.base_component_with_bucket(
            py,
            activated,
            policy.benefit_base_bucket,
            policy.sc_period as u32,
        );
        let dynamic_lapse_component = self.assumptions.lapse.dynamic_component(prior_itm, activated);
        let final_lapse_rate: i64 = if bop_av <= 0 {
            0
        } else {
            match self.config.fixed_lapse_rate {
                Some(annual_rate) => {
                    if pm == 1 {
                        0
                    } else {
                        monthly_from_annual(annual_rate, 15)
                    }
                },
                None => self.assumptions.lapse.monthly_lapse_rate_with_skew(
                    pm,
                    py,
                    mipy,
                    activated,
                    prior_itm,
                    policy.sc_period as u32,
                    policy.benefit_base_bucket,
                ),
            }
        };
        let rider_charge_rate: i64 = if pm % 12 == 0 {
            if activated {
                self.assumptions.product.glwb.post_activation_charge
            } else {
                self.assumptions.product.glwb.pre_activation_charge
            }
        } else {
            0
        };
        let credited_rate = self.calculate_credited_rate(policy, state);
        let systematic_withdrawal: i64 = if activated {
            let payout_rate: i64 = match state.locked_payout_rate {
                Some(r) => r,
                None => self.assumptions.product.glwb.payout_factors.get_single_life(age),
            };
            mul_money_rate(bop_bb, payout_rate) / 12
        } else {
            0
        };
        let rollup_rate: i64 = if py <= policy.sc_period as u32 && !activated {
            self.assumptions.product.glwb.rollup_rate / 12
        } else {
            0
        };
        MonthRates {
            baseline_mortality,
            mortality_improvement,
            final_mortality,
            surrender_charge,
            fpw_pct,
            non_systematic_pwd_rate,
            lapse_skew,
            base_lapse_component,
            dynamic_lapse_component,
            final_lapse_rate,
            rider_charge_rate,
            credited_rate,
            systematic_withdrawal,
            rollup_rate,
        }
    }

    /// One month of the kernel: gather the decrement rates, allocate the
    /// decrement pool proportionally, roll the account value, apply expenses,
    /// compensation, chargebacks and hedge gains, record the row, and hand the
    /// state to the next month (capturing the prior balance sheet before the
    /// benefit base rolls up).
    #[verifier::rlimit(100)]
    fn calculate_month(&self, policy: &Policy, state: &mut ProjectionState) -> (row: CashflowRow)
        requires
            self.wf(),
            policy.wf(),
            old(state).wf(),
            1 <= old(state).projection_month <= 100_000,
            1 <= old(state).policy_year <= 1_000_000,
            1 <= old(state).month_in_policy_year <= 12,
        ensures
            final(state).wf(),
            // Timing and opening balances are copied into the row.
            row.projection_month == old(state).projection_month,
            row.policy_year == old(state).policy_year,
            row.month_in_policy_year == old(state).month_in_policy_year,
            row.attained_age == old(state).attained_age,
            row.bop_av == old(state).bop_av,
            row.bop_benefit_base == old(state).bop_benefit_base,
            row.glwb_activated == old(state).income_activated,
            // Rates.
            row.baseline_mortality == spec_baseline_annual(
                self.assumptions.mortality.base_rates@,
                self.assumptions.mortality.age_factors@,
                old(state).attained_age as int,
                policy.gender,
            ),
            row.mortality_improvement == spec_improvement_rate(
                self.assumptions.mortality.improvement_rates@,
                old(state).attained_age as int,
                policy.gender,
            ),
            row.final_mortality == spec_monthly_mortality(
                self.assumptions.mortality,
                old(state).attained_age as int,
                policy.gender,
                old(state).projection_month as int,
            ),
            row.surrender_charge == spec_sc_rate(
                self.assumptions.product.base.surrender_charges.view(),
                old(state).policy_year as int,
            ),
            row.fpw_pct == spec_fpw_pct(
                self.assumptions.pwd.rmd.view(),
                self.assumptions.pwd.free_pct as int,
                old(state).policy_year as int,
                old(state).attained_age as int,
                policy.qual_status,
            ),
            old(state).policy_year == 1 ==> row.non_systematic_pwd_rate == 0,
            old(state).policy_year != 1 ==> row.non_systematic_pwd_rate
                == spec_monthly_from_annual(
                spec_annual_pwd_rate(
                    self.assumptions.pwd.rmd.view(),
                    self.assumptions.pwd.free_utilization.view(),
                    self.assumptions.pwd.free_pct as int,
                    old(state).policy_year as int,
                    old(state).attained_age as int,
                    policy.qual_status,
                    old(state).income_activated,
                ),
                15,
            ),
            row.lapse_skew == spec_skew_num(
                old(state).policy_year as int,
                old(state).month_in_policy_year as int,
                policy.sc_period as int,
            ),
            row.base_lapse_component == spec_base_component(
                self.assumptions.lapse,
                old(state).policy_year as int,
                old(state).income_activated,
                policy.benefit_base_bucket,
                policy.sc_period as int,
            ),
            row.dynamic_lapse_component == spec_dynamic_component(
                self.assumptions.lapse.coefficients,
                spec_itm(old(state).prior_bop_bb as int, old(state).prior_bop_av as int),
                old(state).income_activated,
            ),
            // The final lapse rate: none on an exhausted account, the spread
            // override when configured, else the model's skewed monthly rate.
            old(state).bop_av <= 0 ==> row.final_lapse_rate == 0,
            old(state).bop_av > 0 && self.config.fixed_lapse_rate is Some
                ==> row.final_lapse_rate == (if old(state).projection_month == 1 {
                0int
            } else {
                spec_monthly_from_annual(self.config.fixed_lapse_rate->0 as int, 15)
            }),
            old(state).bop_av > 0 && self.config.fixed_lapse_rate is None
                ==> row.final_lapse_rate == spec_monthly_lapse_rate(
                self.assumptions.lapse,
                old(state).projection_month as int,
                old(state).policy_year as int,
                old(state).month_in_policy_year as int,
                old(state).income_activated,
                spec_itm(old(state).prior_bop_bb as int, old(state).prior_bop_av as int),
                policy.sc_period as int,
                policy.benefit_base_bucket,
            ),
            old(state).projection_month == 1 ==> row.final_lapse_rate == 0,
            0 <= row.final_lapse_rate <= RATE_SCALE,
            0 <= row.final_mortality <= RATE_SCALE,
            0 <= row.non_systematic_pwd_rate <= RATE_SCALE,
            // Rider charge fires only every twelfth projection month.
            row.rider_charge_rate == (if old(state).projection_month % 12 == 0 {
                if old(state).income_activated {
                    self.assumptions.product.glwb.post_activation_charge as int
                } else {
                    self.assumptions.product.glwb.pre_activation_charge as int
                }
            } else {
                0int
            }),
            row.credited_rate == spec_credited_rate(
                self.config.crediting,
                policy.crediting_strategy,
                old(state).policy_year as int,
                old(state).month_in_policy_year as int,
            ),
            // Systematic withdrawal: a twelfth of the benefit base at the
            // locked payout rate (or the current age's rate while unlocked).
            !old(state).income_activated ==> row.systematic_withdrawal == 0,
            old(state).income_activated ==> row.systematic_withdrawal == scale_down(
                old(state).bop_benefit_base as int,
                if old(state).locked_payout_rate is Some {
                    old(state).locked_payout_rate->0 as int
                } else {
                    spec_band_rate(
                        self.assumptions.product.glwb.payout_factors.view(),
                        old(state).attained_age as int,
                        0,
                    )
                },
            ) / 12,
            row.rollup_rate == (if old(state).policy_year <= policy.sc_period as u32 && !old(
                state,
            ).income_activated {
                self.assumptions.product.glwb.rollup_rate as int / 12
            } else {
                0int
            }),
            // Premium arrives only in projection month one.
            row.premium == (if old(state).projection_month == 1 {
                policy.initial_premium as int
            } else {
                0int
            }),
            // Cumulative persistency factors decay by the month's lives factor
            // and never increase.
            row.av_persistency == scale_down(
                old(state).av_persistency as int,
                spec_lives_factor(row.final_mortality as int, row.final_lapse_rate as int),
            ),
            row.bb_persistency == scale_down(
                old(state).bb_persistency as int,
                spec_lives_factor(row.final_mortality as int, row.final_lapse_rate as int),
            ),
            row.lives_persistency == scale_down(
                old(state).lives_persistency as int,
                spec_lives_factor(row.final_mortality as int, row.final_lapse_rate as int),
            ),
            0 <= row.av_persistency <= old(state).av_persistency,
            0 <= row.bb_persistency <= old(state).bb_persistency,
            0 <= row.lives_persistency <= old(state).lives_persistency,
            // Lives decay by the same factor.
            row.lives == scale_down(
                old(state).lives as int,
                spec_lives_factor(row.final_mortality as int, row.final_lapse_rate as int),
            ),
            0 <= row.lives <= old(state).lives,
            // Account value roll.
            row.pre_decrement_av == scale_down(
                if old(state).bop_av - row.systematic_withdrawal > 0 {
                    old(state).bop_av - row.systematic_withdrawal as int
                } else {
                    0int
                },
                RATE_SCALE + row.credited_rate,
            ),
            row.interest_credits_dec == row.pre_decrement_av - (
            if old(state).bop_av - row.systematic_withdrawal > 0 {
                old(state).bop_av - row.systematic_withdrawal as int
            } else {
                0int
            }),
            // Proportional decrement allocation.
            (
                row.mortality_dec as int,
                row.lapse_dec as int,
                row.pwd_dec as int,
                row.rider_charges_dec as int,
                row.surrender_charges_dec as int,
            ) == spec_decrement_shares(
                row.pre_decrement_av as int,
                row.final_mortality as int,
                row.final_lapse_rate as int,
                row.non_systematic_pwd_rate as int,
                spec_rider_rate(
                    row.rider_charge_rate as int,
                    old(state).bop_benefit_base as int,
                    old(state).bop_av as int,
                ),
                row.fpw_pct as int,
                row.surrender_charge as int,
                row.systematic_withdrawal as int,
            ),
            // End-of-period account value is floored at zero (and capped); an
            // exhausted account stays exhausted.
            row.eop_av == {
                let v = old(state).bop_av + row.interest_credits_dec - (row.mortality_dec
                    + row.lapse_dec + row.pwd_dec + row.rider_charges_dec
                    + row.surrender_charges_dec);
                if v < 0 {
                    0int
                } else if v > MONEY_CAP {
                    MONEY_CAP as int
                } else {
                    v
                }
            },
            0 <= row.eop_av <= MONEY_CAP,
            old(state).bop_av == 0 ==> row.eop_av == 0,
            // Lives-weighted cashflow dollars.
            row.mortality_cf == spec_weighted(row.mortality_dec as int, old(state).lives as int),
            row.lapse_cf == spec_weighted(row.lapse_dec as int, old(state).lives as int),
            row.pwd_cf == spec_weighted(row.pwd_dec as int, old(state).lives as int),
            row.rider_charges_cf == spec_weighted(
                row.rider_charges_dec as int,
                old(state).lives as int,
            ),
            row.surrender_charges_cf == spec_weighted(
                row.surrender_charges_dec as int,
                old(state).lives as int,
            ),
            // Expenses, compensation, chargebacks.
            row.expenses == scale_down(
                row.eop_av as int,
                self.assumptions.product.base.expense_rate_of_av as int,
            ) / 12,
            old(state).projection_month != 1 ==> row.agent_commission == 0
                && row.imo_override == 0 && row.imo_conversion_owed == 0
                && row.wholesaler_override == 0 && row.wholesaler_conversion_owed == 0,
            old(state).projection_month == 1 ==> row.agent_commission == scale_down(
                policy.initial_premium as int,
                self.assumptions.product.commissions.agent_rate as int,
            ) && row.imo_override == scale_down(
                policy.initial_premium as int,
                self.assumptions.product.commissions.imo_override_rate as int,
            ) && row.wholesaler_override == scale_down(
                policy.initial_premium as int,
                self.assumptions.product.commissions.wholesaler_override_rate as int,
            ),
            row.bonus_comp == (if old(state).projection_month == 13 {
                scale_down(
                    old(state).bop_av as int,
                    self.assumptions.product.commissions.bonus_comp_rate as int,
                )
            } else {
                0int
            }),
            row.chargebacks == spec_chargeback(
                old(state).lives as int,
                RATE_SCALE - spec_lives_factor(
                    row.final_mortality as int,
                    row.final_lapse_rate as int,
                ),
                old(state).initial_lives as int,
                if old(state).projection_month == 1 {
                    row.agent_commission + row.imo_override + row.wholesaler_override as int
                } else {
                    old(state).first_month_total_commission as int
                },
                if old(state).policy_year != 1 {
                    0int
                } else if old(state).projection_month <= 6 {
                    RATE_SCALE as int
                } else {
                    RATE_SCALE as int / 2
                },
            ),
            // Hedge gains fire only for indexed cells with parameters set.
            (policy.crediting_strategy == CreditingStrategy::Fixed || self.config.hedge_params
                is None) ==> row.hedge_gains == 0 && row.net_index_credit_reimbursement == 0,
            (policy.crediting_strategy == CreditingStrategy::Indexed
                && self.config.hedge_params is Some) ==> (
                row.net_index_credit_reimbursement as int,
                row.hedge_gains as int,
            ) == spec_hedge_pair(
                self.config.hedge_params->0,
                old(state).bop_av as int,
                row.credited_rate as int,
                spec_av_monthly_persistency(
                    row.final_mortality as int,
                    row.final_lapse_rate as int,
                    row.non_systematic_pwd_rate as int,
                    spec_rider_rate(
                        row.rider_charge_rate as int,
                        old(state).bop_benefit_base as int,
                        old(state).bop_av as int,
                    ),
                ),
                old(state).projection_month as int,
                old(state).policy_year as int,
                old(state).month_in_policy_year as int,
            ),
            // The net cashflow of the month.
            row.total_net_cashflow == row.premium - row.mortality_dec - row.lapse_dec
                - row.pwd_dec - row.expenses - (row.agent_commission + row.imo_override
                + row.wholesaler_override + row.bonus_comp) + row.chargebacks + row.hedge_gains,
            // State handoff: the prior balance sheet is captured before the
            // benefit base update, and the locked rate never changes here.
            final(state).prior_bop_av == old(state).bop_av,
            final(state).prior_bop_bb == old(state).bop_benefit_base,
            final(state).eop_av == row.eop_av,
            final(state).av_persistency == row.av_persistency,
            final(state).bb_persistency == row.bb_persistency,
            final(state).lives_persistency == row.lives_persistency,
            final(state).lives == row.lives,
            final(state).bop_benefit_base == spec_bb_update(
                old(state).bop_benefit_base as int,
                row.final_mortality as int,
                row.final_lapse_rate as int,
                row.non_systematic_pwd_rate as int,
                old(state).income_activated,
                old(state).month_in_policy_year as int,
                old(state).policy_year as int,
                policy.sc_period as int,
                self.assumptions.product.glwb.bonus_rate as int,
                self.assumptions.product.glwb.rollup_rate as int,
            ),
            old(state).income_activated ==> final(state).bop_benefit_base <= old(
                state,
            ).bop_benefit_base,
            final(state).locked_payout_rate == old(state).locked_payout_rate,
            final(state).income_activated == old(state).income_activated,
            final(state).projection_month == old(state).projection_month,
            final(state).policy_year == old(state).policy_year,
            final(state).month_in_policy_year == old(state).month_in_policy_year,
            final(state).attained_age == old(state).attained_age,
            final(state).bop_av == old(state).bop_av,
            final(state).initial_lives == old(state).initial_lives,
            final(state).initial_benefit_base == old(state).initial_benefit_base,
            final(state).first_month_total_commission == (if old(state).projection_month == 1 {
                row.agent_commission + row.imo_override + row.wholesaler_override as int
            } else {
                old(state).first_month_total_commission as int
            }),
            // The same facts, bundled: the row is determined by the inputs and
            // the prior month's state.
            spec_row_rates_v(
                *self.assumptions,
                self.config,
                *policy,
                row,
                old(state).projection_month as int,
                old(state).prior_bop_av as int,
                old(state).prior_bop_bb as int,
            ),
            spec_row_money_v(
                *self.assumptions,
                *policy,
                row,
                old(state).lives as int,
                old(state).av_persistency as int,
                old(state).bb_persistency as int,
                old(state).lives_persistency as int,
            ),
            spec_row_comp_v(
                *self.assumptions,
                self.config,
                *policy,
                row,
                old(state).projection_month as int,
                old(state).lives as int,
                old(state).initial_lives as int,
                if old(state).projection_month == 1 {
                    row.agent_commission + row.imo_override + row.wholesaler_override as int
                } else {
                    old(state).first_month_total_commission as int
                },
            ),
    {
        let pm = state.projection_month;
        let py = state.policy_year;
        let mipy = state.month_in_policy_year;
        let age = state.attained_age;
        let activated = state.income_activated;
        let bop_av = state.bop_av;
        let bop_bb = state.bop_benefit_base;

        // (a) Materialise rates.
        let rates = self.calculate_decrements(policy, state);
        let baseline_mortality = rates.baseline_mortality;
        let mortality_improvement = rates.mortality_improvement;
        let final_mortality = rates.final_mortality;
        let surrender_charge = rates.surrender_charge;
        let fpw_pct = rates.fpw_pct;
        let non_systematic_pwd_rate = rates.non_systematic_pwd_rate;
        let lapse_skew = rates.lapse_skew;
        let base_lapse_component = rates.base_lapse_component;
        let dynamic_lapse_component = rates.dynamic_lapse_component;
        let final_lapse_rate = rates.final_lapse_rate;
        let rider_charge_rate = rates.rider_charge_rate;
        let credited_rate = rates.credited_rate;
        let systematic_withdrawal = rates.systematic_withdrawal;
        let rollup_rate = rates.rollup_rate;

        // (b) Premium.
        let premium: i64 = if pm == 1 {
            policy.initial_premium
        } else {
            0
        };

        // (c) Persistency and lives.
        let lives_factor = crate::fixed::mul_rate_probs(
            RATE_SCALE - final_mortality,
            RATE_SCALE - final_lapse_rate,
        );
        let av_persistency = crate::fixed::mul_rate_probs(state.av_persistency, lives_factor);
        let bb_persistency = crate::fixed::mul_rate_probs(state.bb_persistency, lives_factor);
        let lives_persistency = crate::fixed::mul_rate_probs(state.lives_persistency, lives_factor);
        let lives = mul_money_rate(state.lives, lives_factor);

        // (d) Pre-decrement account value.
        let wd_base: i64 = if bop_av - systematic_withdrawal > 0 {
            bop_av - systematic_withdrawal
        } else {
            0
        };
        let pre_decrement_av = mul_money_rate(wd_base, RATE_SCALE + credited_rate);

        // (g, first half) Interest credit.
        let interest_credits = pre_decrement_av - wd_base;

        // (e) Rider charge as an account value rate.
        let rider_rate = rider_rate_of(rider_charge_rate, bop_bb, bop_av);

        // (f) Proportional decrement allocation.
        let avmp = av_monthly_persistency_of(
            final_mortality,
            final_lapse_rate,
            non_systematic_pwd_rate,
            rider_rate,
        );
        let (mortality_dec, lapse_dec, pwd_dec, rider_charges_dec, surrender_charges_dec) =
            allocate_decrements(
            pre_decrement_av,
            final_mortality,
            final_lapse_rate,
            non_systematic_pwd_rate,
            rider_rate,
            fpw_pct,
            surrender_charge,
            systematic_withdrawal,
        );

        // (g) End-of-period account value, floored at zero.
        let balance: i64 = bop_av + interest_credits - (mortality_dec + lapse_dec + pwd_dec
            + rider_charges_dec + surrender_charges_dec);
        let eop_av: i64 = if balance < 0 {
            0
        } else if balance > MONEY_CAP {
            MONEY_CAP
        } else {
            balance
        };

        // Lives-weighted cashflow dollars.
        let mortality_cf = weighted(mortality_dec, state.lives);
        let lapse_cf = weighted(lapse_dec, state.lives);
        let pwd_cf = weighted(pwd_dec, state.lives);
        let rider_charges_cf = weighted(rider_charges_dec, state.lives);
        let surrender_charges_cf = weighted(surrender_charges_dec, state.lives);
        let interest_credits_cf = weighted_signed(interest_credits, state.lives);

        // (i) Expenses and compensation.
        let expenses = mul_money_rate(eop_av, self.assumptions.product.base.expense_rate_of_av)
            / 12;
        let (agent_commission, imo_override, imo_conversion_owed, wholesaler_override,
        wholesaler_conversion_owed): (i64, i64, i64, i64, i64) = if pm == 1 {
            self.assumptions.product.commissions.calculate_commissions(
                policy.initial_premium,
                policy.issue_age,
            )
        } else {
            (0, 0, 0, 0, 0)
        };
        let bonus_comp: i64 = if pm == 13 {
            mul_money_rate(
                bop_av,
                self.assumptions.product.commissions.bonus_rate(policy.issue_age),
            )
        } else {
            0
        };
        let chargeback_factor = self.assumptions.product.commissions.chargeback_factor(pm, py);
        let first_month_commission: i64 = if pm == 1 {
            agent_commission + imo_override + wholesaler_override
        } else {
            state.first_month_total_commission
        };
        let chargebacks = chargeback_of(
            state.lives,
            RATE_SCALE - lives_factor,
            state.initial_lives,
            first_month_commission,
            chargeback_factor,
        );

        // (j) Hedge gains for indexed cells.
        let (net_index_credit_reimbursement, hedge_gains): (i64, i64) = if matches!(
            policy.crediting_strategy,
            CreditingStrategy::Fixed,
        ) {
            (0, 0)
        } else {
            match &self.config.hedge_params {
                None => (0, 0),
                Some(params) => hedge_components(*params, bop_av, credited_rate, avmp, pm, py, mipy),
            }
        };

        // (k) Total net cashflow: surrender and rider charge decrements stay
        // out (the lapse figure is already net of charge, and the rider charge
        // remains inside the account value roll).
        let total_commission: i64 = agent_commission + imo_override + wholesaler_override
            + bonus_comp;
        let total_net_cashflow: i64 = premium - mortality_dec - lapse_dec - pwd_dec - expenses
            - total_commission + chargebacks + hedge_gains;

        proof {
            reveal(spec_row_rates_v);
            reveal(spec_row_money_v);
            reveal(spec_row_comp_v);
        }
        // (l) State handoff; the prior balance sheet is captured before the
        // benefit base update.
        if pm == 1 {
            state.first_month_total_commission = first_month_commission;
        }
        let new_ytd: i64 = if state.ytd_systematic_wd + systematic_withdrawal
            > 13 * MONEY_CAP {
            13 * MONEY_CAP
        } else {
            state.ytd_systematic_wd + systematic_withdrawal
        };
        state.ytd_systematic_wd = new_ytd;
        state.eop_av = eop_av;
        state.av_persistency = av_persistency;
        state.bb_persistency = bb_persistency;
        state.lives_persistency = lives_persistency;
        state.lives = lives;
        state.prior_bop_av = state.bop_av;
        state.prior_bop_bb = state.bop_benefit_base;
        state.bop_benefit_base = updated_benefit_base(
            bop_bb,
            final_mortality,
            final_lapse_rate,
            non_systematic_pwd_rate,
            activated,
            mipy,
            py,
            policy.sc_period as u32,
            self.assumptions.product.glwb.bonus_rate,
            self.assumptions.product.glwb.rollup_rate,
        );

        CashflowRow {
            projection_month: pm,
            policy_year: py,
            month_in_policy_year: mipy,
            attained_age: age,
            baseline_mortality,
            mortality_improvement,
            final_mortality,
            surrender_charge,
            fpw_pct,
            glwb_activated: activated,
            non_systematic_pwd_rate,
            lapse_skew,
            base_lapse_component,
            dynamic_lapse_component,
            final_lapse_rate,
            premium,
            bop_av,
            bop_benefit_base: bop_bb,
            pre_decrement_av,
            rider_charge_rate,
            credited_rate,
            systematic_withdrawal,
            rollup_rate,
            av_persistency,
            bb_persistency,
            lives_persistency,
            lives,
            mortality_dec,
            lapse_dec,
            pwd_dec,
            rider_charges_dec,
            surrender_charges_dec,
            interest_credits_dec: interest_credits,
            mortality_cf,
            lapse_cf,
            pwd_cf,
            rider_charges_cf,
            surrender_charges_cf,
            interest_credits_cf,
            eop_av,
            expenses,
            agent_commission,
            imo_override,
            imo_conversion_owed,
            wholesaler_override,
            wholesaler_conversion_owed,
            chargebacks,
            bonus_comp,
            total_net_cashflow,
            net_index_credit_reimbursement,
            hedge_gains,
        }
    }
}

/// A per-cell decrement weighted by the lives count, capped at the kernel
/// ceiling.
pub open spec fn spec_weighted(amount: int, lives: int) -> int {
    if scale_down(amount, lives) > MONEY_CAP {
        MONEY_CAP as int
    } else {
        scale_down(amount, lives)
    }
}

/// Weight a non-negative per-cell amount by the lives count.
fn weighted(amount: i64, lives: i64) -> (r: i64)
    requires
        0 <= amount,
        0 <= lives,
    ensures
        r == spec_weighted(amount as int, lives as int),
        0 <= r <= MONEY_CAP,
{
    mul_capped(amount, lives)
}

/// Weight a signed per-cell amount by the lives count; negative amounts weight
/// their magnitude.
fn weighted_signed(amount: i64, lives: i64) -> (r: i64)
    requires
        -(i64::MAX as int) <= amount,
        0 <= lives,
    ensures
        amount >= 0 ==> r == spec_weighted(amount as int, lives as int),
        amount < 0 ==> r == -spec_weighted(-(amount as int), lives as int),
{
    if amount >= 0 {
        mul_capped(amount, lives)
    } else {
        -mul_capped(-amount, lives)
    }
}

/// Rider charge as an account value decrement rate.
fn rider_rate_of(charge_rate: i64, bb: i64, av: i64) -> (r: i64)
    requires
        0 <= charge_rate <= RATE_SCALE,
        0 <= bb <= MONEY_CAP,
    ensures
        r == spec_rider_rate(charge_rate as int, bb as int, av as int),
        0 <= r <= 2 * RATE_SCALE,
{
    if av <= 0 {
        return 0;
    }
    proof {
        crate::fixed::lemma_i64_product_fits(charge_rate as int, bb as int);
        vstd::arithmetic::div_mod::lemma_div_pos_is_pos(
            charge_rate as int * bb as int,
            av as int,
        );
    }
    let q: i128 = (charge_rate as i128) * (bb as i128) / (av as i128);
    if q > (2 * RATE_SCALE) as i128 {
        2 * RATE_SCALE
    } else {
        q as i64
    }
}

/// Chargeback for a month.
fn chargeback_of(lives: i64, lost_rate: i64, initial_lives: i64, commission: i64, factor: i64) -> (r:
    i64)
    requires
        0 <= lives,
        0 <= lost_rate <= RATE_SCALE,
        0 <= initial_lives,
        0 <= commission <= 3 * MONEY_CAP,
        0 <= factor <= RATE_SCALE,
    ensures
        r == spec_chargeback(
            lives as int,
            lost_rate as int,
            initial_lives as int,
            commission as int,
            factor as int,
        ),
        0 <= r <= commission,
{
    proof {
        reveal(spec_chargeback);
    }
    if initial_lives <= 0 {
        return 0;
    }
    proof {
        crate::fixed::lemma_i64_product_fits(lives as int, lost_rate as int);
        vstd::arithmetic::div_mod::lemma_div_pos_is_pos(
            lives as int * lost_rate as int,
            initial_lives as int,
        );
    }
    let lr128: i128 = (lives as i128) * (lost_rate as i128) / (initial_lives as i128);
    let lr: i64 = if lr128 > RATE_SCALE as i128 {
        RATE_SCALE
    } else {
        lr128 as i64
    };
    let base = mul_money_rate(commission, lr);
    mul_money_rate(base, factor)
}

/// Hedge components for an indexed cell with parameters set.
fn hedge_components(
    params: HedgeParams,
    bop_av: i64,
    credited: i64,
    avmp: i64,
    projection_month: u32,
    policy_year: u32,
    month_in_policy_year: u32,
) -> (r: (i64, i64))
    requires
        params.wf(),
        0 <= bop_av <= MONEY_CAP,
        -(RATE_SCALE as int) <= credited <= RATE_SCALE,
        -(RATE_SCALE as int) <= avmp <= RATE_SCALE,
        1 <= month_in_policy_year <= 12,
        1 <= policy_year,
    ensures
        (r.0 as int, r.1 as int) == spec_hedge_pair(
            params,
            bop_av as int,
            credited as int,
            avmp as int,
            projection_month as int,
            policy_year as int,
            month_in_policy_year as int,
        ),
        0 <= r.0 <= 4 * MONEY_CAP,
        0 <= r.1 <= 12 * MONEY_CAP,
{
    proof {
        reveal(spec_hedge_pair);
    }
    let mult: i64 = if month_in_policy_year == 1 && policy_year > 1 {
        if policy_year - 1 <= 10 {
            RATE_SCALE
        } else {
            RATE_SCALE / 2
        }
    } else {
        if policy_year <= 10 {
            RATE_SCALE
        } else {
            RATE_SCALE / 2
        }
    };
    let budget_mult = crate::fixed::mul_rate_probs(params.option_budget, mult);
    let cost = mul_money_rate(budget_mult, RATE_SCALE + params.financing_fee);
    proof {
        crate::fixed::lemma_money_signed_fits(bop_av as int, credited as int - cost as int);
    }
    let reimb0 = mul_rate_signed(bop_av, credited - cost);
    let reimb: i64 = if reimb0 > 0 {
        reimb0
    } else {
        0
    };
    proof {
        crate::fixed::lemma_money_signed_fits(bop_av as int, RATE_SCALE - avmp as int);
    }
    let av_lost = mul_rate_signed(bop_av, RATE_SCALE - avmp);
    let net_appreciation: i64 = RATE_SCALE + params.appreciation_rate - params.financing_fee;
    let lagged_month: u32 = if projection_month == 1 {
        1
    } else if month_in_policy_year == 1 {
        12
    } else {
        month_in_policy_year - 1
    };
    let appr = frac_pow_12(net_appreciation, lagged_month);
    let step1 = mul_money_rate(av_lost, params.option_budget);
    let step2 = mul_money_rate(step1, mult);
    let gains_part = mul_money_rate(step2, appr);
    (reimb, gains_part + reimb)
}


/// The monthly account value persistency factor, as a value.
fn av_monthly_persistency_of(qm: i64, ql: i64, qp: i64, rr: i64) -> (r: i64)
    requires
        0 <= qm <= RATE_SCALE,
        0 <= ql <= RATE_SCALE,
        0 <= qp <= RATE_SCALE,
        0 <= rr <= 2 * RATE_SCALE,
    ensures
        r == spec_av_monthly_persistency(qm as int, ql as int, qp as int, rr as int),
        -(RATE_SCALE as int) <= r <= RATE_SCALE,
{
    let f1 = crate::fixed::mul_rate_probs(RATE_SCALE - qm, RATE_SCALE - ql);
    let f2 = crate::fixed::mul_rate_probs(f1, RATE_SCALE - qp);
    proof {
        crate::fixed::lemma_signed_product_fits(f2 as int, RATE_SCALE - rr as int);
    }
    mul_rate_signed(f2, RATE_SCALE - rr)
}

/// Allocate the decrement pool proportionally to the four decrement rates and
/// split the lapse share into its net and surrender charge parts.
fn allocate_decrements(
    pre_dec: i64,
    qm: i64,
    ql: i64,
    qp: i64,
    rr: i64,
    fpw: i64,
    sc: i64,
    swd: i64,
) -> (r: (i64, i64, i64, i64, i64))
    requires
        0 <= pre_dec <= 2 * MONEY_CAP,
        0 <= qm <= RATE_SCALE,
        0 <= ql <= RATE_SCALE,
        0 <= qp <= RATE_SCALE,
        0 <= rr <= 2 * RATE_SCALE,
        0 <= fpw <= RATE_SCALE,
        0 <= sc <= RATE_SCALE,
        0 <= swd <= MONEY_CAP,
    ensures
        (r.0 as int, r.1 as int, r.2 as int, r.3 as int, r.4 as int) == spec_decrement_shares(
            pre_dec as int,
            qm as int,
            ql as int,
            qp as int,
            rr as int,
            fpw as int,
            sc as int,
            swd as int,
        ),
        0 <= r.0 <= 4 * MONEY_CAP,
        0 <= r.1 <= 4 * MONEY_CAP,
        0 <= r.2 <= 5 * MONEY_CAP,
        0 <= r.3 <= 4 * MONEY_CAP,
        0 <= r.4 <= 4 * MONEY_CAP,
{
    proof {
        reveal(spec_decrement_shares);
    }
    let avmp = av_monthly_persistency_of(qm, ql, qp, rr);
    proof {
        crate::fixed::lemma_money_signed_fits(pre_dec as int, RATE_SCALE - avmp as int);
    }
    let pool = mul_rate_signed(pre_dec, RATE_SCALE - avmp);
    let sum_of_rates: i64 = qm + ql + qp + rr;
    if sum_of_rates > 0 {
        let mort = prorate(pool, qm, sum_of_rates);
        let lshare = prorate(pool, ql, sum_of_rates);
        let net_factor = fpw + crate::fixed::mul_rate_probs(RATE_SCALE - fpw, RATE_SCALE - sc);
        let lapse = mul_money_rate(lshare, net_factor);
        let surr = mul_money_rate(lshare, crate::fixed::mul_rate_probs(RATE_SCALE - fpw, sc));
        let pwd = prorate(pool, qp, sum_of_rates) + swd;
        let rider = prorate(pool, rr, sum_of_rates);
        (mort, lapse, pwd, rider, surr)
    } else {
        (0, 0, swd, 0, 0)
    }
}


impl<'a> ProjectionEngine<'a> {
    /// Run the projection for a single policy cell from month one to the
    /// horizon, stopping early once no lives remain.
    ///
    /// The rows witness the universal invariants of the kernel: persistency
    /// factors and lives never increase; the account value never goes
    /// negative, and once exhausted stays exhausted; the cumulative lives
    /// persistency is exactly the running fixed-point product of the monthly
    /// survival factors; no lapse is taken in projection month one, and the
    /// premium arrives there alone; and after income activation the benefit
    /// base never grows.
    #[verifier::rlimit(100)]
    pub fn project_policy(&self, policy: &Policy) -> (r: ProjectionResult)
        requires
            self.wf(),
            policy.wf(),
        ensures
            r.policy_id == policy.policy_id,
            r.cashflows@.len() <= self.config.projection_months,
            // The run reaches the horizon unless the cell's lives run out.
            r.cashflows@.len() == self.config.projection_months || (r.cashflows@.len() > 0
                && r.cashflows@[r.cashflows@.len() - 1].lives == 0),
            forall|i: int| 0 <= i < r.cashflows@.len()
                ==> (#[trigger] r.cashflows@[i]).projection_month == i + 1,
            // Every row's timing and activation flag are the functions of the
            // policy that every component derives them by.
            forall|i: int| 0 <= i < r.cashflows@.len() ==> {
                &&& (#[trigger] r.cashflows@[i]).policy_year == crate::policy::spec_policy_year(
                    policy.duration_months as int,
                    i + 1,
                )
                &&& r.cashflows@[i].month_in_policy_year
                    == crate::policy::spec_month_in_policy_year(
                    policy.duration_months as int,
                    i + 1,
                )
                &&& r.cashflows@[i].attained_age == crate::policy::spec_attained_age(
                    policy.issue_age as int,
                    policy.duration_months as int,
                    i + 1,
                )
                &&& r.cashflows@[i].glwb_activated == (policy.income_activated
                    || crate::policy::spec_policy_year(policy.duration_months as int, i + 1)
                    >= policy.glwb_start_year as int)
            },
            // The benefit base chains month to month by the kernel's update.
            forall|i: int| 1 <= i < r.cashflows@.len()
                ==> (#[trigger] r.cashflows@[i]).bop_benefit_base == spec_bb_update(
                r.cashflows@[i - 1].bop_benefit_base as int,
                r.cashflows@[i - 1].final_mortality as int,
                r.cashflows@[i - 1].final_lapse_rate as int,
                r.cashflows@[i - 1].non_systematic_pwd_rate as int,
                r.cashflows@[i - 1].glwb_activated,
                r.cashflows@[i - 1].month_in_policy_year as int,
                r.cashflows@[i - 1].policy_year as int,
                policy.sc_period as int,
                self.assumptions.product.glwb.bonus_rate as int,
                self.assumptions.product.glwb.rollup_rate as int,
            ),
            // A fresh cell takes no free or non-systematic withdrawal in its
            // first month.
            (policy.duration_months == 0 && r.cashflows@.len() > 0) ==> r.cashflows@[0].fpw_pct
                == 0 && r.cashflows@[0].non_systematic_pwd_rate == 0,
            // The first row opens on the policy's starting balances, and every
            // row's rates, money figures and compensation follow from the
            // policy, assumptions and configuration by the kernel's formulas:
            // the whole row stream is a function of those inputs, so a re-run
            // on identical inputs is identical.
            r.cashflows@.len() > 0 ==> r.cashflows@[0].bop_av == (if policy.current_av is Some {
                policy.current_av->0
            } else {
                policy.initial_premium
            }) && r.cashflows@[0].bop_benefit_base == (if policy.current_benefit_base is Some {
                policy.current_benefit_base->0
            } else {
                policy.initial_benefit_base
            }),
            forall|i: int| 0 <= i < r.cashflows@.len() ==> #[trigger] spec_row_determined(
                *self.assumptions,
                self.config,
                *policy,
                r.cashflows@,
                i,
            ),
            // Once income is active, every systematic withdrawal uses the one
            // payout rate locked at the first active month, never a current
            // age's rate.
            forall|i: int| 0 <= i < r.cashflows@.len() ==> ((#[trigger] r.cashflows@[
                i
            ]).glwb_activated ==> r.cashflows@[i].systematic_withdrawal == scale_down(
                r.cashflows@[i].bop_benefit_base as int,
                spec_locked_rate(
                    self.assumptions.product.glwb.payout_factors.view(),
                    *policy,
                ),
            ) / 12),
            forall|i: int| 0 <= i < r.cashflows@.len() ==> {
                &&& 0 <= (#[trigger] r.cashflows@[i]).eop_av <= MONEY_CAP
                &&& 0 <= r.cashflows@[i].bop_av <= MONEY_CAP
                &&& 0 <= r.cashflows@[i].lives <= MONEY_CAP
                &&& 0 <= r.cashflows@[i].av_persistency <= RATE_SCALE
                &&& 0 <= r.cashflows@[i].bb_persistency <= RATE_SCALE
                &&& 0 <= r.cashflows@[i].lives_persistency <= RATE_SCALE
            },
            forall|i: int| 1 <= i < r.cashflows@.len() ==> {
                &&& (#[trigger] r.cashflows@[i]).av_persistency <= r.cashflows@[i
                    - 1].av_persistency
                &&& r.cashflows@[i].bb_persistency <= r.cashflows@[i - 1].bb_persistency
                &&& r.cashflows@[i].lives_persistency <= r.cashflows@[i - 1].lives_persistency
                &&& r.cashflows@[i].lives <= r.cashflows@[i - 1].lives
            },
            forall|i: int| 1 <= i < r.cashflows@.len()
                ==> (#[trigger] r.cashflows@[i]).bop_av == r.cashflows@[i - 1].eop_av,
            forall|i: int| 1 <= i < r.cashflows@.len() ==> (r.cashflows@[i - 1].eop_av == 0
                ==> (#[trigger] r.cashflows@[i]).eop_av == 0),
            forall|i: int| 0 <= i < r.cashflows@.len()
                ==> (#[trigger] r.cashflows@[i]).lives_persistency == scale_down(
                if i == 0 {
                    RATE_SCALE as int
                } else {
                    r.cashflows@[i - 1].lives_persistency as int
                },
                spec_lives_factor(
                    r.cashflows@[i].final_mortality as int,
                    r.cashflows@[i].final_lapse_rate as int,
                ),
            ),
            r.cashflows@.len() > 0 ==> r.cashflows@[0].final_lapse_rate == 0,
            r.cashflows@.len() > 0 ==> r.cashflows@[0].premium == policy.initial_premium,
            forall|i: int| 1 <= i < r.cashflows@.len()
                ==> (#[trigger] r.cashflows@[i]).premium == 0,
            forall|i: int| 1 <= i < r.cashflows@.len() ==> ((#[trigger] r.cashflows@[i
                - 1]).glwb_activated ==> r.cashflows@[i].glwb_activated
                && r.cashflows@[i].bop_benefit_base <= r.cashflows@[i - 1].bop_benefit_base),
    {
        let ghost rows = Seq::<CashflowRow>::empty();
        let mut result = ProjectionResult::new(policy.policy_id);
        let mut state = ProjectionState::from_policy(policy);
        let n = self.config.projection_months;
        let mut i: u32 = 0;
        let mut done: bool = false;
        while i < n && !done
            invariant
                self.wf(),
                policy.wf(),
                state.wf(),
                n == self.config.projection_months,
                n <= 100_000,
                0 <= i <= n,
                result.policy_id == policy.policy_id,
                result.cashflows@.len() == i,
                state.projection_month == i,
                done ==> i > 0 && result.cashflows@[i - 1].lives == 0,
                (policy.duration_months == 0 && i > 0) ==> result.cashflows@[0].fpw_pct == 0
                    && result.cashflows@[0].non_systematic_pwd_rate == 0,
                forall|j: int| 0 <= j < i
                    ==> (#[trigger] result.cashflows@[j]).projection_month == j + 1,
                forall|j: int| 0 <= j < i ==> {
                    &&& (#[trigger] result.cashflows@[j]).policy_year
                        == crate::policy::spec_policy_year(policy.duration_months as int, j + 1)
                    &&& result.cashflows@[j].month_in_policy_year
                        == crate::policy::spec_month_in_policy_year(
                        policy.duration_months as int,
                        j + 1,
                    )
                    &&& result.cashflows@[j].attained_age == crate::policy::spec_attained_age(
                        policy.issue_age as int,
                        policy.duration_months as int,
                        j + 1,
                    )
                    &&& result.cashflows@[j].glwb_activated == (policy.income_activated
                        || crate::policy::spec_policy_year(policy.duration_months as int, j + 1)
                        >= policy.glwb_start_year as int)
                },
                state.income_activated == (policy.income_activated || (i >= 1
                    && crate::policy::spec_policy_year(policy.duration_months as int, i as int)
                    >= policy.glwb_start_year as int)),
                forall|j: int| 1 <= j < i
                    ==> (#[trigger] result.cashflows@[j]).bop_benefit_base == spec_bb_update(
                    result.cashflows@[j - 1].bop_benefit_base as int,
                    result.cashflows@[j - 1].final_mortality as int,
                    result.cashflows@[j - 1].final_lapse_rate as int,
                    result.cashflows@[j - 1].non_systematic_pwd_rate as int,
                    result.cashflows@[j - 1].glwb_activated,
                    result.cashflows@[j - 1].month_in_policy_year as int,
                    result.cashflows@[j - 1].policy_year as int,
                    policy.sc_period as int,
                    self.assumptions.product.glwb.bonus_rate as int,
                    self.assumptions.product.glwb.rollup_rate as int,
                ),
                i > 0 ==> state.bop_benefit_base as int == spec_bb_update(
                    result.cashflows@[i - 1].bop_benefit_base as int,
                    result.cashflows@[i - 1].final_mortality as int,
                    result.cashflows@[i - 1].final_lapse_rate as int,
                    result.cashflows@[i - 1].non_systematic_pwd_rate as int,
                    result.cashflows@[i - 1].glwb_activated,
                    result.cashflows@[i - 1].month_in_policy_year as int,
                    result.cashflows@[i - 1].policy_year as int,
                    policy.sc_period as int,
                    self.assumptions.product.glwb.bonus_rate as int,
                    self.assumptions.product.glwb.rollup_rate as int,
                ),
                forall|j: int| 0 <= j < i ==> {
                    &&& 0 <= (#[trigger] result.cashflows@[j]).eop_av <= MONEY_CAP
                    &&& 0 <= result.cashflows@[j].bop_av <= MONEY_CAP
                    &&& 0 <= result.cashflows@[j].lives <= MONEY_CAP
                    &&& 0 <= result.cashflows@[j].av_persistency <= RATE_SCALE
                    &&& 0 <= result.cashflows@[j].bb_persistency <= RATE_SCALE
                    &&& 0 <= result.cashflows@[j].lives_persistency <= RATE_SCALE
                },
                forall|j: int| 1 <= j < i ==> {
                    &&& (#[trigger] result.cashflows@[j]).av_persistency <= result.cashflows@[j
                        - 1].av_persistency
                    &&& result.cashflows@[j].bb_persistency <= result.cashflows@[j
                        - 1].bb_persistency
                    &&& result.cashflows@[j].lives_persistency <= result.cashflows@[j
                        - 1].lives_persistency
                    &&& result.cashflows@[j].lives <= result.cashflows@[j - 1].lives
                },
                forall|j: int| 1 <= j < i
                    ==> (#[trigger] result.cashflows@[j]).bop_av == result.cashflows@[j
                    - 1].eop_av,
                forall|j: int| 1 <= j < i ==> (result.cashflows@[j - 1].eop_av == 0
                    ==> (#[trigger] result.cashflows@[j]).eop_av == 0),
                forall|j: int| 0 <= j < i
                    ==> (#[trigger] result.cashflows@[j]).lives_persistency == scale_down(
                    if j == 0 {
                        RATE_SCALE as int
                    } else {
                        result.cashflows@[j - 1].lives_persistency as int
                    },
                    spec_lives_factor(
                        result.cashflows@[j].final_mortality as int,
                        result.cashflows@[j].final_lapse_rate as int,
                    ),
                ),
                i > 0 ==> result.cashflows@[0].final_lapse_rate == 0,
                i > 0 ==> result.cashflows@[0].premium == policy.initial_premium,
                forall|j: int| 1 <= j < i ==> (#[trigger] result.cashflows@[j]).premium == 0,
                forall|j: int| 1 <= j < i ==> ((#[trigger] result.cashflows@[j
                    - 1]).glwb_activated ==> result.cashflows@[j].glwb_activated
                    && result.cashflows@[j].bop_benefit_base <= result.cashflows@[j
                    - 1].bop_benefit_base),
                i > 0 ==> result.cashflows@[0].bop_av == (if policy.current_av is Some {
                    policy.current_av->0
                } else {
                    policy.initial_premium
                }) && result.cashflows@[0].bop_benefit_base == (
                if policy.current_benefit_base is Some {
                    policy.current_benefit_base->0
                } else {
                    policy.initial_benefit_base
                }),
                forall|j: int| 0 <= j < i ==> #[trigger] spec_row_determined(
                    *self.assumptions,
                    self.config,
                    *policy,
                    result.cashflows@,
                    j,
                ),
                state.initial_lives == policy.initial_pols,
                state.prior_bop_av as int == spec_prior_av(
                    *policy,
                    result.cashflows@,
                    i as int,
                ),
                state.prior_bop_bb as int == spec_prior_bb(
                    *policy,
                    result.cashflows@,
                    i as int,
                ),
                state.lives as int == spec_prev_lives(*policy, result.cashflows@, i as int),
                i == 0 ==> state.eop_av == (if policy.current_av is Some {
                    policy.current_av->0
                } else {
                    policy.initial_premium
                }) && state.bop_benefit_base == (if policy.current_benefit_base is Some {
                    policy.current_benefit_base->0
                } else {
                    policy.initial_benefit_base
                }),
                i > 0 ==> state.first_month_total_commission as int == result.cashflows@[
                    0
                ].agent_commission + result.cashflows@[0].imo_override + result.cashflows@[
                    0
                ].wholesaler_override,
                i > 0 ==> state.eop_av == result.cashflows@[i - 1].eop_av,
                i > 0 ==> state.av_persistency == result.cashflows@[i - 1].av_persistency,
                i > 0 ==> state.bb_persistency == result.cashflows@[i - 1].bb_persistency,
                i > 0 ==> state.lives_persistency == result.cashflows@[i - 1].lives_persistency,
                i > 0 ==> state.lives == result.cashflows@[i - 1].lives,
                i > 0 ==> (result.cashflows@[i - 1].glwb_activated ==> state.income_activated
                    && state.bop_benefit_base <= result.cashflows@[i - 1].bop_benefit_base),
                i == 0 ==> state.av_persistency == RATE_SCALE && state.bb_persistency
                    == RATE_SCALE && state.lives_persistency == RATE_SCALE,
                i > 0 ==> (state.income_activated ==> state.locked_payout_rate is Some),
                state.locked_payout_rate matches Some(rate) ==> rate as int == spec_locked_rate(
                    self.assumptions.product.glwb.payout_factors.view(),
                    *policy,
                ),
                forall|j: int| 0 <= j < i ==> ((#[trigger] result.cashflows@[j]).glwb_activated
                    ==> result.cashflows@[j].systematic_withdrawal == scale_down(
                    result.cashflows@[j].bop_benefit_base as int,
                    spec_locked_rate(
                        self.assumptions.product.glwb.payout_factors.view(),
                        *policy,
                    ),
                ) / 12),
            decreases n - i,
        {
            proof {
                if i >= 1 {
                    crate::policy::lemma_policy_year_step(
                        policy.duration_months as int,
                        i as int,
                    );
                }
            }
            state.advance_month(policy);

            // Lock the payout rate the first month income is active.
            if state.income_activated && state.locked_payout_rate.is_none() {
                proof {
                    // At the first active month the attained age is the locked
                    // age: either income is on from projection month one, or
                    // the policy year has just stepped onto the activation
                    // year, so the age is the activation year's.
                    if i >= 1 {
                        crate::policy::lemma_policy_year_monotonic(
                            policy.duration_months as int,
                            1,
                            i as int,
                        );
                    }
                    assert(state.attained_age as int == spec_locked_age(*policy));
                }
                let rate = self.assumptions.product.glwb.payout_factors.get_single_life(
                    state.attained_age,
                );
                state.locked_payout_rate = Some(rate);
            }

            let ghost prev_rows = result.cashflows@;
            let row = self.calculate_month(policy, &mut state);
            result.add_row(row);
            proof {
                assert forall|j: int| 0 <= j < i implies #[trigger] spec_row_determined(
                    *self.assumptions,
                    self.config,
                    *policy,
                    result.cashflows@,
                    j,
                ) by {
                    lemma_row_preds_push(
                        *self.assumptions,
                        self.config,
                        *policy,
                        prev_rows,
                        row,
                        j,
                    );
                }
                let rows_now = result.cashflows@;
                assert(rows_now[i as int] == row);
                assert(spec_row_determined(
                    *self.assumptions,
                    self.config,
                    *policy,
                    rows_now,
                    i as int,
                )) by {
                    reveal(spec_row_determined);
                    reveal(spec_row_rates);
                    reveal(spec_row_money);
                    reveal(spec_row_comp);
                }
            }
            i = i + 1;

            // Stop once no lives remain.
            if state.lives <= 0 {
                done = true;
            }
        }
        result
    }
}

/// Block-level net cashflow for month `m` over the first `k` cells, summed in
/// cell order with saturation at the machine range after each addition; a cell
/// whose projection ended before `m` contributes nothing.
pub open spec fn spec_aggregate_month(results: Seq<ProjectionResult>, m: int, k: int) -> int
    decreases k,
{
    if k <= 0 {
        0
    } else {
        let cell = if m < results[k - 1].cashflows@.len() {
            results[k - 1].cashflows@[m].total_net_cashflow as int
        } else {
            0
        };
        let sum = spec_aggregate_month(results, m, k - 1) + cell;
        if sum > i64::MAX {
            i64::MAX as int
        } else if sum < i64::MIN {
            i64::MIN as int
        } else {
            sum
        }
    }
}

/// Aggregate per-cell results into the block's monthly net cashflow vector,
/// iterating cells in their given order so that identical inputs always give
/// an identical vector.
pub fn aggregate_net_cashflows(results: &Vec<ProjectionResult>, horizon: usize) -> (r: Vec<i64>)
    requires
        horizon <= 100_000,
    ensures
        r@.len() == horizon,
        forall|m: int| 0 <= m < horizon ==> #[trigger] r@[m] == spec_aggregate_month(
            results@,
            m,
            results@.len() as int,
        ),
{
    let n_cells = results.len();
    let mut out: Vec<i64> = Vec::new();
    let mut m: usize = 0;
    while m < horizon
        invariant
            0 <= m <= horizon,
            n_cells == results@.len(),
            out@.len() == m,
            forall|j: int| 0 <= j < m ==> #[trigger] out@[j] == spec_aggregate_month(
                results@,
                j,
                results@.len() as int,
            ),
        decreases horizon - m,
    {
        let mut acc: i64 = 0;
        let mut k: usize = 0;
        while k < n_cells
            invariant
                0 <= k <= n_cells,
                n_cells == results@.len(),
                0 <= m,
                acc == spec_aggregate_month(results@, m as int, k as int),
            decreases n_cells - k,
        {
            let rows = &results[k].cashflows;
            let cell: i64 = if m < rows.len() {
                rows[m].total_net_cashflow
            } else {
                0
            };
            let sum: i128 = (acc as i128) + (cell as i128);
            acc = if sum > i64::MAX as i128 {
                i64::MAX
            } else if sum < i64::MIN as i128 {
                i64::MIN
            } else {
                sum as i64
            };
            k = k + 1;
        }
        out.push(acc);
        m = m + 1;
    }
    out
}

/// Recomputing the block from the same per-cell results gives a bit-identical
/// monthly vector: the aggregation is a function of the cell sequence alone,
/// folded in the cells' stable order.
pub proof fn lemma_aggregation_deterministic(
    a: Seq<ProjectionResult>,
    b: Seq<ProjectionResult>,
    m: int,
    k: int,
)
    requires
        a == b,
    ensures
        spec_aggregate_month(a, m, k) == spec_aggregate_month(b, m, k),
{
}

} // verus!
