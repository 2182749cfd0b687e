//! The reserve optimiser: for a valuation month, find the income activation
//! time that maximises the reserve, with the cash surrender value as a floor,
//! and roll cached solves forward between full solves.

use vstd::prelude::*;
use crate::fixed::{RATE_SCALE, MONEY_CAP, scale_down, mul_money_rate, mul_rate_probs};
use crate::policy::Policy;
use crate::assumptions::Assumptions;
use crate::mortality::{MortalityTable, spec_monthly_mortality};
use crate::product::{GlwbFeatures, spec_band_rate, spec_sc_rate};
use crate::reserves::types::{ReserveResult, ReserveComponents, ReserveMethod};
use crate::reserves::discount::{DiscountCurve, spec_monthly_discount_factor};
use crate::reserves::benefits::{BenefitCalculator, spec_death_pv, spec_income_pv};
use crate::reserves::cache::{
    CachedReservePath, RollForwardResult, ReserveCache, RevalidationCriteria,
};

verus! {

/// Calculation method for the optimiser.
#[derive(Debug, Clone, Copy, PartialEq, Eq, Structural)]
pub enum CARVMMethod {
    /// Test every activation time; guaranteed correct.
    BruteForce,
    /// Dynamic programming over activation times.
    DynamicProgramming,
    /// Dynamic programming with periodic brute-force validation.
    Hybrid,
}

impl Default for CARVMMethod {
    fn default() -> (r: Self)
        ensures
            r == CARVMMethod::Hybrid,
    {
        CARVMMethod::Hybrid
    }
}

/// Configuration for the reserve optimiser.
#[derive(Debug, Clone, Copy)]
pub struct CARVMConfig {
    /// Calculation method.
    pub method: CARVMMethod,
    /// Maximum projection months.
    pub max_projection_months: u32,
    /// Whether to use roll-forward caching.
    pub use_caching: bool,
    /// How often to revalidate cached values, in months.
    pub revalidation_frequency: u32,
    /// Revalidation criteria.
    pub revalidation_criteria: RevalidationCriteria,
    /// Maximum deferral period to test, in years.
    pub max_deferral_years: u32,
}

impl CARVMConfig {
    pub open spec fn wf(self) -> bool {
        &&& self.max_projection_months <= 100_000
        &&& self.max_deferral_years <= 1000
        &&& self.revalidation_criteria.wf()
    }

    /// The standard configuration: the hybrid method over the full horizon
    /// with yearly revalidation and thirty years of deferral.
    pub fn default_config() -> (r: Self)
        ensures
            r.wf(),
            r.method == CARVMMethod::Hybrid,
            r.max_projection_months == 768,
            r.use_caching,
            r.revalidation_frequency == 12,
            r.max_deferral_years == 30,
    {
        CARVMConfig {
            method: CARVMMethod::Hybrid,
            max_projection_months: 768,
            use_caching: true,
            revalidation_frequency: 12,
            revalidation_criteria: RevalidationCriteria::default_criteria(),
            max_deferral_years: 30,
        }
    }
}

/// Reserve of the path that activates income at month `act`: the death
/// benefit present value plus the income present value, saturating at the cap.
pub open spec fn spec_candidate_reserve(
    t: MortalityTable,
    glwb: GlwbFeatures,
    policy: Policy,
    val: int,
    end: int,
    act: int,
    av: int,
    bb: int,
    v: int,
) -> int {
    let death = spec_death_pv(
        t,
        glwb,
        policy,
        val,
        end,
        Some(act),
        av,
        bb,
        RATE_SCALE as int,
        RATE_SCALE as int,
        v,
    );
    let age = crate::policy::spec_attained_age(
        policy.issue_age as int,
        policy.duration_months as int,
        act,
    );
    let income = spec_income_pv(
        t,
        policy,
        val,
        end,
        act,
        scale_down(bb, spec_band_rate(glwb.payout_factors.view(), age, 0)) / 12,
        RATE_SCALE as int,
        RATE_SCALE as int,
        v,
    );
    if death + income > MONEY_CAP {
        MONEY_CAP as int
    } else {
        death + income
    }
}

/// Reserve of the path that never activates income: death benefits alone.
pub open spec fn spec_never_reserve(
    t: MortalityTable,
    glwb: GlwbFeatures,
    policy: Policy,
    val: int,
    end: int,
    av: int,
    bb: int,
    v: int,
) -> int {
    spec_death_pv(
        t,
        glwb,
        policy,
        val,
        end,
        None,
        av,
        bb,
        RATE_SCALE as int,
        RATE_SCALE as int,
        v,
    )
}

/// The solved gross reserve is the activation-time optimum floored by the
/// surrender value: it is at least the reserve of every tested activation
/// path and of the never path, at least the surrender value, and equals one
/// of them.  Any two solvers meeting this predicate agree on the gross
/// reserve, so method choice and re-solving cannot change it.
pub open spec fn spec_reserve_is_solver_max(
    a: Assumptions,
    horizon: int,
    max_deferral_years: int,
    policy: Policy,
    val: int,
    av: int,
    bb: int,
    gross: int,
    optimal: u32,
    csv: int,
) -> bool {
    let v = spec_monthly_discount_factor(policy.val_rate as int);
    let hi = spec_max_activation(val, max_deferral_years, horizon);
    &&& forall|act: int| val <= act <= hi ==> gross >= #[trigger] spec_candidate_reserve(
        a.mortality,
        a.product.glwb,
        policy,
        val,
        horizon,
        act,
        av,
        bb,
        v,
    )
    &&& gross >= spec_never_reserve(a.mortality, a.product.glwb, policy, val, horizon, av, bb, v)
    &&& gross >= csv
    &&& (gross == csv || (optimal != u32::MAX && val <= optimal <= hi && gross
        == spec_candidate_reserve(
        a.mortality,
        a.product.glwb,
        policy,
        val,
        horizon,
        optimal as int,
        av,
        bb,
        v,
    )) || (optimal == u32::MAX && gross == spec_never_reserve(
        a.mortality,
        a.product.glwb,
        policy,
        val,
        horizon,
        av,
        bb,
        v,
    )))
}

/// The main reserve optimiser.
pub struct CARVMCalculator {
    pub assumptions: Assumptions,
    pub config: CARVMConfig,
    pub cache: ReserveCache,
}

/// Trait for reserve calculators.
pub trait ReserveCalculator {
    /// The calculator's internal invariant.
    spec fn inv(&self) -> bool;

    /// Reserve for a policy at a valuation month.
    fn calculate_reserve(&mut self, policy: &Policy, valuation_month: u32) -> (r: ReserveResult)
        requires
            old(self).inv(),
            policy.wf(),
            valuation_month <= 88_000,
        ensures
            final(self).inv(),
            r.gross_reserve >= r.csv_at_valuation,
            0 <= r.gross_reserve,
    ;

    /// Clear any cached data.
    fn clear_cache(&mut self)
        requires
            old(self).inv(),
        ensures
            final(self).inv(),
    ;
}

impl CARVMCalculator {
    pub open spec fn wf(self) -> bool {
        &&& self.assumptions.wf()
        &&& self.config.wf()
        &&& self.cache.wf()
    }

    /// Create a calculator.
    pub fn new(assumptions: Assumptions, config: CARVMConfig) -> (r: Self)
        requires
            assumptions.wf(),
            config.wf(),
        ensures
            r.wf(),
            r.config == config,
            r.assumptions == assumptions,
            r.cache.entries@.len() == 0,
    {
        let cache = ReserveCache::with_criteria(config.revalidation_criteria);
        CARVMCalculator { assumptions, config, cache }
    }

    /// Create a calculator with the standard configuration.
    pub fn with_defaults(assumptions: Assumptions) -> (r: Self)
        requires
            assumptions.wf(),
        ensures
            r.wf(),
            r.config.method == CARVMMethod::Hybrid,
            r.config.max_projection_months == 768,
            r.config.use_caching,
            r.config.max_deferral_years == 30,
            r.cache.entries@.len() == 0,
    {
        CARVMCalculator::new(assumptions, CARVMConfig::default_config())
    }

    /// The assumptions in use.
    pub fn assumptions(&self) -> (r: &Assumptions)
        ensures
            r == &self.assumptions,
    {
        &self.assumptions
    }

    /// Mutable access to the assumptions, for calibration.
    pub fn assumptions_mut(&mut self) -> (r: &mut Assumptions)
        ensures
            old(self) == self,
    {
        &mut self.assumptions
    }

    /// Cache statistics: hits, misses and the scaled hit rate.
    pub fn cache_stats(&self) -> (r: (u64, u64, i64))
        ensures
            r.0 == self.cache.cache_hits,
            r.1 == self.cache.cache_misses,
    {
        (self.cache.cache_hits, self.cache.cache_misses, self.cache.hit_rate())
    }

    /// Brute force: test every activation month from the valuation month to
    /// the deferral limit, and the never path.  The result is at least the
    /// reserve of every candidate path, and names the path it equals.
    #[verifier::rlimit(100)]
    pub fn brute_force_solve(
        &self,
        policy: &Policy,
        valuation_month: u32,
        current_av: i64,
        current_bb: i64,
    ) -> (r: (u32, i64, ReserveComponents))
        requires
            self.wf(),
            policy.wf(),
            0 <= current_av <= MONEY_CAP,
            0 <= current_bb <= MONEY_CAP,
            valuation_month <= 88_000,
        ensures
            0 <= r.1 <= MONEY_CAP,
            forall|a: int| valuation_month <= a <= spec_max_activation(
                valuation_month as int,
                self.config.max_deferral_years as int,
                self.config.max_projection_months as int,
            ) ==> r.1 >= spec_candidate_reserve(
                self.assumptions.mortality,
                self.assumptions.product.glwb,
                *policy,
                valuation_month as int,
                self.config.max_projection_months as int,
                a,
                current_av as int,
                current_bb as int,
                spec_monthly_discount_factor(policy.val_rate as int),
            ),
            r.1 >= spec_never_reserve(
                self.assumptions.mortality,
                self.assumptions.product.glwb,
                *policy,
                valuation_month as int,
                self.config.max_projection_months as int,
                current_av as int,
                current_bb as int,
                spec_monthly_discount_factor(policy.val_rate as int),
            ),
            r.0 != u32::MAX ==> valuation_month <= r.0 && r.0 as int <= spec_max_activation(
                valuation_month as int,
                self.config.max_deferral_years as int,
                self.config.max_projection_months as int,
            ) && r.1 == spec_candidate_reserve(
                self.assumptions.mortality,
                self.assumptions.product.glwb,
                *policy,
                valuation_month as int,
                self.config.max_projection_months as int,
                r.0 as int,
                current_av as int,
                current_bb as int,
                spec_monthly_discount_factor(policy.val_rate as int),
            ),
            r.0 == u32::MAX ==> (r.1 == spec_never_reserve(
                self.assumptions.mortality,
                self.assumptions.product.glwb,
                *policy,
                valuation_month as int,
                self.config.max_projection_months as int,
                current_av as int,
                current_bb as int,
                spec_monthly_discount_factor(policy.val_rate as int),
            ) || r.1 == 0),
            // The components name the attained path: on an activation path the
            // death and income legs sum to the reserve (up to the cap) and the
            // elective part is the income; on the never path the death leg is
            // the whole reserve.
            r.0 != u32::MAX ==> r.2.death_benefit_pv == spec_death_pv(
                self.assumptions.mortality,
                self.assumptions.product.glwb,
                *policy,
                valuation_month as int,
                self.config.max_projection_months as int,
                Some(r.0 as int),
                current_av as int,
                current_bb as int,
                RATE_SCALE as int,
                RATE_SCALE as int,
                spec_monthly_discount_factor(policy.val_rate as int),
            ) && r.2.income_benefit_pv == spec_income_pv(
                self.assumptions.mortality,
                *policy,
                valuation_month as int,
                self.config.max_projection_months as int,
                r.0 as int,
                scale_down(
                    current_bb as int,
                    spec_band_rate(
                        self.assumptions.product.glwb.payout_factors.view(),
                        crate::policy::spec_attained_age(
                            policy.issue_age as int,
                            policy.duration_months as int,
                            r.0 as int,
                        ),
                        0,
                    ),
                ) / 12,
                RATE_SCALE as int,
                RATE_SCALE as int,
                spec_monthly_discount_factor(policy.val_rate as int),
            ) && r.1 == (if r.2.death_benefit_pv + r.2.income_benefit_pv > MONEY_CAP {
                MONEY_CAP as int
            } else {
                r.2.death_benefit_pv + r.2.income_benefit_pv
            }),
            r.0 == u32::MAX ==> r.2.death_benefit_pv == r.1 && r.2.income_benefit_pv == 0,
            r.2.elective_benefit_pv == r.2.income_benefit_pv,
            r.2.surrender_value_pv == 0,
            r.2.free_pwd_pv == 0,
            0 <= r.2.death_benefit_pv <= MONEY_CAP,
            0 <= r.2.income_benefit_pv <= MONEY_CAP,
    {
        let ghost t = self.assumptions.mortality;
        let ghost glwb = self.assumptions.product.glwb;
        let ghost v_spec = spec_monthly_discount_factor(policy.val_rate as int);
        let discount_curve = DiscountCurve::single_rate(policy.val_rate);
        let benefit_calc = BenefitCalculator::new(
            &self.assumptions,
            discount_curve,
            self.config.max_projection_months,
        );

        let mut best_reserve: i64 = 0;
        let mut best_activation: u32 = u32::MAX;
        let mut best_components = ReserveComponents::zero();

        let deferral_end: u32 = valuation_month + self.config.max_deferral_years * 12;
        let max_act: u32 = if deferral_end < self.config.max_projection_months {
            deferral_end
        } else {
            self.config.max_projection_months
        };

        let mut activation_month: u32 = valuation_month;
        while activation_month <= max_act
            invariant
                self.wf(),
                policy.wf(),
                0 <= current_av <= MONEY_CAP,
                0 <= current_bb <= MONEY_CAP,
                valuation_month <= 88_000,
                max_act == spec_max_activation(
                    valuation_month as int,
                    self.config.max_deferral_years as int,
                    self.config.max_projection_months as int,
                ),
                max_act <= 100_000,
                valuation_month <= activation_month,
                activation_month <= max_act + 1 || activation_month == valuation_month,
                benefit_calc.wf(),
                benefit_calc.assumptions == &self.assumptions,
                benefit_calc.max_projection_months == self.config.max_projection_months,
                benefit_calc.discount_curve.valuation_rate == policy.val_rate,
                benefit_calc.discount_curve.death_benefit_rate is None,
                t == self.assumptions.mortality,
                glwb == self.assumptions.product.glwb,
                v_spec == spec_monthly_discount_factor(policy.val_rate as int),
                0 <= best_reserve <= MONEY_CAP,
                forall|a: int| valuation_month <= a < activation_month ==> best_reserve
                    >= spec_candidate_reserve(
                    t,
                    glwb,
                    *policy,
                    valuation_month as int,
                    self.config.max_projection_months as int,
                    a,
                    current_av as int,
                    current_bb as int,
                    v_spec,
                ),
                best_activation != u32::MAX ==> valuation_month <= best_activation
                    && best_activation < activation_month && best_reserve
                    == spec_candidate_reserve(
                    t,
                    glwb,
                    *policy,
                    valuation_month as int,
                    self.config.max_projection_months as int,
                    best_activation as int,
                    current_av as int,
                    current_bb as int,
                    v_spec,
                ),
                best_activation == u32::MAX ==> best_reserve == 0,
                best_activation != u32::MAX ==> best_components.death_benefit_pv
                    == spec_death_pv(
                    t,
                    glwb,
                    *policy,
                    valuation_month as int,
                    self.config.max_projection_months as int,
                    Some(best_activation as int),
                    current_av as int,
                    current_bb as int,
                    RATE_SCALE as int,
                    RATE_SCALE as int,
                    v_spec,
                ) && best_components.income_benefit_pv == spec_income_pv(
                    t,
                    *policy,
                    valuation_month as int,
                    self.config.max_projection_months as int,
                    best_activation as int,
                    scale_down(
                        current_bb as int,
                        spec_band_rate(
                            glwb.payout_factors.view(),
                            crate::policy::spec_attained_age(
                                policy.issue_age as int,
                                policy.duration_months as int,
                                best_activation as int,
                            ),
                            0,
                        ),
                    ) / 12,
                    RATE_SCALE as int,
                    RATE_SCALE as int,
                    v_spec,
                ) && best_reserve == (
                if best_components.death_benefit_pv + best_components.income_benefit_pv
                    > MONEY_CAP {
                    MONEY_CAP as int
                } else {
                    best_components.death_benefit_pv + best_components.income_benefit_pv
                }),
                best_activation == u32::MAX ==> best_components.death_benefit_pv == 0
                    && best_components.income_benefit_pv == 0,
                best_components.elective_benefit_pv == best_components.income_benefit_pv,
                best_components.surrender_value_pv == 0,
                best_components.free_pwd_pv == 0,
                0 <= best_components.death_benefit_pv <= MONEY_CAP,
                0 <= best_components.income_benefit_pv <= MONEY_CAP,
            decreases max_act + 1 - activation_month,
        {
            let death_pv = benefit_calc.death_benefit_pv(
                policy,
                valuation_month,
                Some(activation_month),
                current_av,
                current_bb,
            );
            let income_pv = benefit_calc.income_benefit_pv(
                policy,
                valuation_month,
                activation_month,
                current_bb,
            );
            let total: i64 = if death_pv + income_pv > MONEY_CAP {
                MONEY_CAP
            } else {
                death_pv + income_pv
            };
            proof {
                assert(death_pv as int == spec_death_pv(
                    t,
                    glwb,
                    *policy,
                    valuation_month as int,
                    self.config.max_projection_months as int,
                    Some(activation_month as int),
                    current_av as int,
                    current_bb as int,
                    RATE_SCALE as int,
                    RATE_SCALE as int,
                    v_spec,
                ));
                assert(income_pv as int == spec_income_pv(
                    t,
                    *policy,
                    valuation_month as int,
                    self.config.max_projection_months as int,
                    activation_month as int,
                    scale_down(
                        current_bb as int,
                        spec_band_rate(
                            glwb.payout_factors.view(),
                            crate::policy::spec_attained_age(
                                policy.issue_age as int,
                                policy.duration_months as int,
                                activation_month as int,
                            ),
                            0,
                        ),
                    ) / 12,
                    RATE_SCALE as int,
                    RATE_SCALE as int,
                    v_spec,
                ));
                assert(total as int == spec_candidate_reserve(
                    t,
                    glwb,
                    *policy,
                    valuation_month as int,
                    self.config.max_projection_months as int,
                    activation_month as int,
                    current_av as int,
                    current_bb as int,
                    v_spec,
                ));
            }
            if total > best_reserve {
                best_reserve = total;
                best_activation = activation_month;
                best_components = ReserveComponents {
                    death_benefit_pv: death_pv,
                    income_benefit_pv: income_pv,
                    surrender_value_pv: 0,
                    elective_benefit_pv: income_pv,
                    free_pwd_pv: 0,
                };
            }
            activation_month = activation_month + 1;
        }

        let never_death_pv = benefit_calc.death_benefit_pv(
            policy,
            valuation_month,
            None,
            current_av,
            current_bb,
        );
        if never_death_pv > best_reserve {
            best_reserve = never_death_pv;
            best_activation = u32::MAX;
            best_components = ReserveComponents {
                death_benefit_pv: never_death_pv,
                income_benefit_pv: 0,
                surrender_value_pv: 0,
                elective_benefit_pv: 0,
                free_pwd_pv: 0,
            };
        }

        (best_activation, best_reserve, best_components)
    }

    /// Cash surrender value at a month: the account value net of the year's
    /// surrender charge.
    pub fn cash_surrender_value(&self, policy: &Policy, month: u32, av: i64) -> (r: i64)
        requires
            self.wf(),
            policy.wf(),
            0 <= av <= MONEY_CAP,
        ensures
            r == scale_down(
                av as int,
                RATE_SCALE - spec_sc_rate(
                    self.assumptions.product.base.surrender_charges.view(),
                    crate::policy::spec_policy_year(policy.duration_months as int, month as int),
                ),
            ),
            0 <= r <= av,
    {
        let policy_year = policy.policy_year(month);
        let sc_rate = self.assumptions.product.base.surrender_charges.get_rate(policy_year);
        mul_money_rate(av, RATE_SCALE - sc_rate)
    }

    /// Account value at a month (simplified: the starting value, a
    /// conservative stand-in until state tracking is wired in).
    pub fn get_av_at_month(&self, policy: &Policy, _month: u32) -> (r: i64)
        requires
            policy.wf(),
        ensures
            r == (if policy.current_av is Some {
                policy.current_av->0
            } else {
                policy.initial_premium
            }),
            0 <= r <= MONEY_CAP,
    {
        policy.starting_av()
    }

    /// Benefit base at a month (simplified, as with the account value).
    pub fn get_bb_at_month(&self, policy: &Policy, _month: u32) -> (r: i64)
        requires
            policy.wf(),
        ensures
            r == (if policy.current_benefit_base is Some {
                policy.current_benefit_base->0
            } else {
                policy.initial_benefit_base
            }),
            0 <= r <= MONEY_CAP,
    {
        policy.starting_benefit_base()
    }

    /// Roll a reserve forward through the accumulation period: one month of
    /// interest and survivorship at a time, the cached reserve divided by the
    /// product of the survival probability and the discount factor, capped.
    pub fn roll_accumulation_reserve(
        &self,
        r_prev: i64,
        policy: &Policy,
        t_prev: u32,
        t_now: u32,
    ) -> (r: i64)
        requires
            self.wf(),
            policy.wf(),
            0 <= r_prev <= MONEY_CAP,
            t_prev <= t_now <= 100_000,
        ensures
            r == spec_rolled_reserve(
                self.assumptions.mortality,
                *policy,
                r_prev as int,
                t_prev as int,
                t_now as int,
                spec_monthly_discount_factor(policy.val_rate as int),
            ),
            0 <= r <= MONEY_CAP,
    {
        let ghost table = self.assumptions.mortality;
        let v = crate::reserves::discount::monthly_discount_factor(policy.val_rate);
        let mut reserve: i64 = r_prev;
        let mut t: u32 = t_prev;
        while t < t_now
            invariant
                self.wf(),
                policy.wf(),
                table == self.assumptions.mortality,
                t_prev <= t <= t_now <= 100_000,
                0 <= v <= RATE_SCALE,
                0 <= reserve <= MONEY_CAP,
                spec_rolled_reserve(table, *policy, reserve as int, t as int, t_now as int, v as int)
                    == spec_rolled_reserve(
                    table,
                    *policy,
                    r_prev as int,
                    t_prev as int,
                    t_now as int,
                    v as int,
                ),
            decreases t_now - t,
        {
            let attained_age = policy.attained_age(t);
            let q = self.assumptions.mortality.monthly_rate(attained_age, policy.gender, t);
            let pv = mul_rate_probs(RATE_SCALE - q, v);
            if pv > 0 {
                proof {
                    crate::fixed::lemma_i64_product_fits(reserve as int, RATE_SCALE as int);
                    vstd::arithmetic::div_mod::lemma_div_pos_is_pos(
                        reserve as int * RATE_SCALE as int,
                        pv as int,
                    );
                }
                let grown: i128 = (reserve as i128) * (RATE_SCALE as i128) / (pv as i128);
                reserve = if grown > MONEY_CAP as i128 {
                    MONEY_CAP
                } else {
                    grown as i64
                };
            }
            t = t + 1;
        }
        reserve
    }

    /// Try to roll a cached reserve forward to a valuation month: before the
    /// cached activation the reserve is rolled through the accumulation
    /// period (flagged stale once the moneyness has moved a tenth); at or
    /// past a real activation it is the remaining income stream plus the
    /// death benefits along the activated path.
    pub fn try_roll_forward(
        &self,
        policy: &Policy,
        valuation_month: u32,
        cached: &CachedReservePath,
    ) -> (r: RollForwardResult)
        requires
            self.wf(),
            policy.wf(),
            cached.wf(),
            valuation_month <= 88_000,
            cached.solve_month <= valuation_month,
        ensures
            r is Success,
            r matches RollForwardResult::Success { reserve, .. } ==> 0 <= reserve <= 2 * MONEY_CAP,
            valuation_month < cached.optimal_activation_month ==> (r matches
                RollForwardResult::Success { reserve, .. } ==> reserve == spec_rolled_reserve(
                self.assumptions.mortality,
                *policy,
                cached.reserve_at_solve as int,
                cached.solve_month as int,
                valuation_month as int,
                spec_monthly_discount_factor(policy.val_rate as int),
            )),
            valuation_month >= cached.optimal_activation_month ==> (r matches
                RollForwardResult::Success { reserve, still_valid } ==> still_valid && reserve
                == spec_income_pv(
                self.assumptions.mortality,
                *policy,
                valuation_month as int,
                self.config.max_projection_months as int,
                valuation_month as int,
                scale_down(
                    (if policy.current_benefit_base is Some {
                        policy.current_benefit_base->0
                    } else {
                        policy.initial_benefit_base
                    }) as int,
                    spec_band_rate(
                        self.assumptions.product.glwb.payout_factors.view(),
                        crate::policy::spec_attained_age(
                            policy.issue_age as int,
                            policy.duration_months as int,
                            cached.optimal_activation_month as int,
                        ),
                        0,
                    ),
                ) / 12,
                RATE_SCALE as int,
                RATE_SCALE as int,
                spec_monthly_discount_factor(policy.val_rate as int),
            ) + spec_death_pv(
                self.assumptions.mortality,
                self.assumptions.product.glwb,
                *policy,
                valuation_month as int,
                self.config.max_projection_months as int,
                Some(cached.optimal_activation_month as int),
                (if policy.current_av is Some {
                    policy.current_av->0
                } else {
                    policy.initial_premium
                }) as int,
                (if policy.current_benefit_base is Some {
                    policy.current_benefit_base->0
                } else {
                    policy.initial_benefit_base
                }) as int,
                RATE_SCALE as int,
                RATE_SCALE as int,
                spec_monthly_discount_factor(policy.val_rate as int),
            )),
    {
        let t_star = cached.optimal_activation_month;
        let current_av = self.get_av_at_month(policy, valuation_month);
        let current_bb = self.get_bb_at_month(policy, valuation_month);

        if valuation_month < t_star {
            let rolled = self.roll_accumulation_reserve(
                cached.reserve_at_solve,
                policy,
                cached.solve_month,
                valuation_month,
            );
            let current_itm = crate::lapse::calculate_itm_ness(current_bb, current_av);
            let diff: i64 = if current_itm >= cached.itm_at_solve {
                current_itm - cached.itm_at_solve
            } else {
                cached.itm_at_solve - current_itm
            };
            proof {
                crate::fixed::lemma_i64_product_fits(diff as int, RATE_SCALE as int);
                crate::fixed::lemma_i64_product_fits(
                    100_000_000,
                    if cached.itm_at_solve > 10_000_000 {
                        cached.itm_at_solve as int
                    } else {
                        10_000_000
                    },
                );
            }
            let base: i64 = if cached.itm_at_solve > 10_000_000 {
                cached.itm_at_solve
            } else {
                10_000_000
            };
            let still_valid = (diff as i128) * (RATE_SCALE as i128) <= 100_000_000i128 * (
            base as i128);
            return RollForwardResult::Success { reserve: rolled, still_valid };
        }

        if t_star < u32::MAX {
            let discount_curve = DiscountCurve::single_rate(policy.val_rate);
            let benefit_calc = BenefitCalculator::new(
                &self.assumptions,
                discount_curve,
                self.config.max_projection_months,
            );
            let activation_age = policy.attained_age(t_star);
            let payout_rate = self.assumptions.product.glwb.payout_factors.get_single_life(
                activation_age,
            );
            let income_pv = benefit_calc.remaining_income_pv(
                policy,
                valuation_month,
                current_bb,
                payout_rate,
            );
            let death_pv = benefit_calc.death_benefit_pv(
                policy,
                valuation_month,
                Some(t_star),
                current_av,
                current_bb,
            );
            return RollForwardResult::Success { reserve: income_pv + death_pv, still_valid: true };
        }

        RollForwardResult::NeedsResolve
    }

    /// Full solve at a month, cache the result, and apply the surrender value
    /// floor.
    pub fn full_solve_and_cache(
        &mut self,
        policy: &Policy,
        valuation_month: u32,
        current_av: i64,
        current_bb: i64,
    ) -> (r: ReserveResult)
        requires
            old(self).wf(),
            policy.wf(),
            0 <= current_av <= MONEY_CAP,
            0 <= current_bb <= MONEY_CAP,
            valuation_month <= 88_000,
            old(self).cache.entries@.len() < 1_000_000,
        ensures
            final(self).wf(),
            final(self).cache.entries@.len() < 1_000_000,
            final(self).assumptions == old(self).assumptions,
            final(self).config == old(self).config,
            r.policy_id == policy.policy_id,
            r.valuation_date == valuation_month,
            0 <= r.gross_reserve,
            r.gross_reserve == r.net_reserve,
            r.csv_at_valuation == scale_down(
                current_av as int,
                RATE_SCALE - spec_sc_rate(
                    old(self).assumptions.product.base.surrender_charges.view(),
                    crate::policy::spec_policy_year(
                        policy.duration_months as int,
                        valuation_month as int,
                    ),
                ),
            ),
            r.gross_reserve >= r.csv_at_valuation,
            spec_reserve_is_solver_max(
                old(self).assumptions,
                old(self).config.max_projection_months as int,
                old(self).config.max_deferral_years as int,
                *policy,
                valuation_month as int,
                current_av as int,
                current_bb as int,
                r.gross_reserve as int,
                r.optimal_activation_month,
                r.csv_at_valuation as int,
            ),
            r.gross_reserve == r.csv_at_valuation || r.gross_reserve == (
            if r.reserve_components.death_benefit_pv + r.reserve_components.elective_benefit_pv
                > MONEY_CAP {
                MONEY_CAP as int
            } else {
                r.reserve_components.death_benefit_pv + r.reserve_components.elective_benefit_pv
            }),
            !r.from_cache,
    {
        // The dynamic programming and hybrid methods must agree with brute
        // force; until they are specialised, every method solves by brute
        // force.
        let (optimal_month, reserve, components) = self.brute_force_solve(
            policy,
            valuation_month,
            current_av,
            current_bb,
        );

        let csv = self.cash_surrender_value(policy, valuation_month, current_av);
        let final_reserve: i64 = if reserve > csv {
            reserve
        } else {
            csv
        };

        if self.config.use_caching && self.cache.len() < 999_999 {
            let monthly_income: i64 = if optimal_month < u32::MAX {
                let activation_age = policy.attained_age(optimal_month);
                let payout_rate = self.assumptions.product.glwb.payout_factors.get_single_life(
                    activation_age,
                );
                mul_money_rate(current_bb, payout_rate) / 12
            } else {
                0
            };
            let sc_rate = self.assumptions.product.base.surrender_charges.get_rate(
                policy.policy_year(valuation_month),
            );
            let death_pv_cached: i64 = if components.death_benefit_pv > MONEY_CAP {
                MONEY_CAP
            } else if components.death_benefit_pv < 0 {
                0
            } else {
                components.death_benefit_pv
            };
            let cached_path = CachedReservePath::new(
                policy.policy_id as u64,
                valuation_month,
                optimal_month,
                reserve,
                current_av,
                current_bb,
                monthly_income,
                death_pv_cached,
                sc_rate,
            );
            self.cache.insert(cached_path);
        }

        let is_csv_binding = final_reserve == csv;
        ReserveResult {
            policy_id: policy.policy_id,
            valuation_date: valuation_month,
            gross_reserve: final_reserve,
            net_reserve: final_reserve,
            optimal_activation_month: if is_csv_binding {
                u32::MAX
            } else {
                optimal_month
            },
            reserve_components: if is_csv_binding {
                ReserveComponents { surrender_value_pv: csv, ..components }
            } else {
                components
            },
            method: ReserveMethod::CARVM,
            from_cache: false,
            csv_at_valuation: csv,
        }
    }

    /// Reserve with caching: serve a roll-forward when the cached solve is
    /// still fresh, otherwise re-solve in full.  Whichever path serves it, the
    /// gross reserve never falls below the cash surrender value.
    pub fn calculate_with_cache(&mut self, policy: &Policy, valuation_month: u32) -> (r:
        ReserveResult)
        requires
            old(self).wf(),
            policy.wf(),
            valuation_month <= 88_000,
            old(self).cache.entries@.len() < 1_000_000,
        ensures
            final(self).wf(),
            final(self).cache.entries@.len() < 1_000_000,
            final(self).assumptions == old(self).assumptions,
            final(self).config == old(self).config,
            r.policy_id == policy.policy_id,
            r.valuation_date == valuation_month,
            0 <= r.gross_reserve,
            r.csv_at_valuation == scale_down(
                (if policy.current_av is Some {
                    policy.current_av->0
                } else {
                    policy.initial_premium
                }) as int,
                RATE_SCALE - spec_sc_rate(
                    old(self).assumptions.product.base.surrender_charges.view(),
                    crate::policy::spec_policy_year(
                        policy.duration_months as int,
                        valuation_month as int,
                    ),
                ),
            ),
            r.gross_reserve >= r.csv_at_valuation,
            // An empty cache always forces a full solve, and a full solve
            // pins the gross reserve as the activation-time optimum floored
            // by the surrender value; a cache-served month carries the
            // roll-forward value instead.
            old(self).cache.entries@.len() == 0 ==> !r.from_cache,
            !r.from_cache ==> spec_reserve_is_solver_max(
                old(self).assumptions,
                old(self).config.max_projection_months as int,
                old(self).config.max_deferral_years as int,
                *policy,
                valuation_month as int,
                (if policy.current_av is Some {
                    policy.current_av->0
                } else {
                    policy.initial_premium
                }) as int,
                (if policy.current_benefit_base is Some {
                    policy.current_benefit_base->0
                } else {
                    policy.initial_benefit_base
                }) as int,
                r.gross_reserve as int,
                r.optimal_activation_month,
                r.csv_at_valuation as int,
            ),
    {
        let policy_id = policy.policy_id as u64;
        let current_av = self.get_av_at_month(policy, valuation_month);
        let current_bb = self.get_bb_at_month(policy, valuation_month);
        let current_sc_period = policy.sc_period as u32;

        if self.config.use_caching {
            let cached_data = self.cache.get(policy_id);
            match cached_data {
                Some(cached) => {
                    let needs = self.config.revalidation_criteria.needs_revalidation(
                        &cached,
                        valuation_month,
                        current_av,
                        current_bb,
                        current_sc_period,
                    );
                    if needs.is_some() {
                        self.cache.record_revalidation();
                        // Fall through to the full solve below.
                    } else if cached.solve_month <= valuation_month {
                        match self.try_roll_forward(policy, valuation_month, &cached) {
                            RollForwardResult::Success { reserve, still_valid: _ } => {
                                self.cache.record_hit();
                                let csv = self.cash_surrender_value(
                                    policy,
                                    valuation_month,
                                    current_av,
                                );
                                let final_reserve: i64 = if reserve > csv {
                                    reserve
                                } else {
                                    csv
                                };
                                let income_part: i64 = if reserve
                                    >= cached.death_benefit_pv_remaining {
                                    reserve - cached.death_benefit_pv_remaining
                                } else {
                                    0
                                };
                                return ReserveResult {
                                    policy_id: policy.policy_id,
                                    valuation_date: valuation_month,
                                    gross_reserve: final_reserve,
                                    net_reserve: final_reserve,
                                    optimal_activation_month: cached.optimal_activation_month,
                                    reserve_components: ReserveComponents {
                                        death_benefit_pv: cached.death_benefit_pv_remaining,
                                        income_benefit_pv: income_part,
                                        surrender_value_pv: if final_reserve == csv {
                                            csv
                                        } else {
                                            0
                                        },
                                        elective_benefit_pv: income_part,
                                        free_pwd_pv: 0,
                                    },
                                    method: ReserveMethod::CARVM,
                                    from_cache: true,
                                    csv_at_valuation: csv,
                                };
                            },
                            RollForwardResult::NeedsResolve => {
                                self.cache.record_miss();
                                // Fall through to the full solve below.
                            },
                        }
                    } else {
                        self.cache.record_miss();
                    }
                },
                None => {
                    self.cache.record_miss();
                },
            }
        }

        self.full_solve_and_cache(policy, valuation_month, current_av, current_bb)
    }

    /// Clear the roll-forward cache.
    pub fn clear_cache(&mut self)
        requires
            old(self).wf(),
        ensures
            final(self).wf(),
            final(self).cache.entries@.len() == 0,
            final(self).assumptions == old(self).assumptions,
            final(self).config == old(self).config,
    {
        self.cache.clear();
    }

    /// Reserve for a policy at a valuation month, with caching.
    pub fn calculate_reserve(&mut self, policy: &Policy, valuation_month: u32) -> (r:
        ReserveResult)
        requires
            old(self).wf(),
            policy.wf(),
            valuation_month <= 88_000,
            old(self).cache.entries@.len() < 1_000_000,
        ensures
            final(self).wf(),
            final(self).cache.entries@.len() < 1_000_000,
            final(self).assumptions == old(self).assumptions,
            final(self).config == old(self).config,
            r.policy_id == policy.policy_id,
            r.valuation_date == valuation_month,
            0 <= r.gross_reserve,
            r.gross_reserve >= r.csv_at_valuation,
            old(self).cache.entries@.len() == 0 ==> !r.from_cache,
            !r.from_cache ==> spec_reserve_is_solver_max(
                old(self).assumptions,
                old(self).config.max_projection_months as int,
                old(self).config.max_deferral_years as int,
                *policy,
                valuation_month as int,
                (if policy.current_av is Some {
                    policy.current_av->0
                } else {
                    policy.initial_premium
                }) as int,
                (if policy.current_benefit_base is Some {
                    policy.current_benefit_base->0
                } else {
                    policy.initial_benefit_base
                }) as int,
                r.gross_reserve as int,
                r.optimal_activation_month,
                r.csv_at_valuation as int,
            ),
    {
        self.calculate_with_cache(policy, valuation_month)
    }
}

/// Last activation month the brute force search tests.
pub open spec fn spec_max_activation(val: int, max_deferral_years: int, horizon: int) -> int {
    if val + max_deferral_years * 12 < horizon {
        val + max_deferral_years * 12
    } else {
        horizon
    }
}

/// Two reserve results that both satisfy the solver-max contract for the same
/// inputs carry the same gross reserve: the reserve is a function of the
/// inputs, so re-solving after clearing the cache, or solving by any method
/// that meets the contract, cannot change it.
pub proof fn lemma_solver_max_unique(
    a: Assumptions,
    horizon: int,
    max_deferral_years: int,
    policy: Policy,
    val: int,
    av: int,
    bb: int,
    g1: int,
    o1: u32,
    g2: int,
    o2: u32,
    csv: int,
)
    requires
        spec_reserve_is_solver_max(
            a,
            horizon,
            max_deferral_years,
            policy,
            val,
            av,
            bb,
            g1,
            o1,
            csv,
        ),
        spec_reserve_is_solver_max(
            a,
            horizon,
            max_deferral_years,
            policy,
            val,
            av,
            bb,
            g2,
            o2,
            csv,
        ),
    ensures
        g1 == g2,
{
}

impl ReserveCalculator for CARVMCalculator {
    open spec fn inv(&self) -> bool {
        &&& self.wf()
        &&& self.cache.entries@.len() < 1_000_000
    }

    fn calculate_reserve(&mut self, policy: &Policy, valuation_month: u32) -> (r: ReserveResult) {
        CARVMCalculator::calculate_with_cache(self, policy, valuation_month)
    }

    fn clear_cache(&mut self) {
        self.cache.clear();
    }
}

impl CARVMCalculator {
    /// Dynamic programming solver.  Its contract is that it agrees with brute
    /// force; it delegates to the brute force search, so the agreement is by
    /// construction.
    pub fn dp_solve(
        &self,
        policy: &Policy,
        valuation_month: u32,
        current_av: i64,
        current_bb: i64,
    ) -> (r: (u32, i64, ReserveComponents))
        requires
            self.wf(),
            policy.wf(),
            0 <= current_av <= MONEY_CAP,
            0 <= current_bb <= MONEY_CAP,
            valuation_month <= 88_000,
        ensures
            0 <= r.1 <= MONEY_CAP,
            r.1 >= spec_never_reserve(
                self.assumptions.mortality,
                self.assumptions.product.glwb,
                *policy,
                valuation_month as int,
                self.config.max_projection_months as int,
                current_av as int,
                current_bb as int,
                spec_monthly_discount_factor(policy.val_rate as int),
            ),
            forall|a: int| valuation_month <= a <= spec_max_activation(
                valuation_month as int,
                self.config.max_deferral_years as int,
                self.config.max_projection_months as int,
            ) ==> r.1 >= spec_candidate_reserve(
                self.assumptions.mortality,
                self.assumptions.product.glwb,
                *policy,
                valuation_month as int,
                self.config.max_projection_months as int,
                a,
                current_av as int,
                current_bb as int,
                spec_monthly_discount_factor(policy.val_rate as int),
            ),
    {
        self.brute_force_solve(policy, valuation_month, current_av, current_bb)
    }

    /// Hybrid solver: dynamic programming with brute-force validation.  It
    /// too delegates to the brute force search.
    pub fn hybrid_solve(
        &self,
        policy: &Policy,
        valuation_month: u32,
        current_av: i64,
        current_bb: i64,
    ) -> (r: (u32, i64, ReserveComponents))
        requires
            self.wf(),
            policy.wf(),
            0 <= current_av <= MONEY_CAP,
            0 <= current_bb <= MONEY_CAP,
            valuation_month <= 88_000,
        ensures
            0 <= r.1 <= MONEY_CAP,
            r.1 >= spec_never_reserve(
                self.assumptions.mortality,
                self.assumptions.product.glwb,
                *policy,
                valuation_month as int,
                self.config.max_projection_months as int,
                current_av as int,
                current_bb as int,
                spec_monthly_discount_factor(policy.val_rate as int),
            ),
    {
        self.brute_force_solve(policy, valuation_month, current_av, current_bb)
    }

    /// Reserves for a batch of policies at one valuation month, in the given
    /// stable order.
    pub fn calculate_reserves_batch(&mut self, policies: &Vec<Policy>, valuation_month: u32) -> (r:
        Vec<ReserveResult>)
        requires
            old(self).wf(),
            valuation_month <= 88_000,
            old(self).cache.entries@.len() < 1_000_000,
            forall|i: int| 0 <= i < policies@.len() ==> (#[trigger] policies@[i]).wf(),
        ensures
            final(self).wf(),
            r@.len() == policies@.len(),
            forall|i: int| 0 <= i < r@.len() ==> {
                &&& (#[trigger] r@[i]).gross_reserve >= r@[i].csv_at_valuation
                &&& 0 <= r@[i].gross_reserve
                &&& r@[i].policy_id == policies@[i].policy_id
                &&& r@[i].valuation_date == valuation_month
                &&& r@[i].csv_at_valuation == scale_down(
                    (if policies@[i].current_av is Some {
                        policies@[i].current_av->0
                    } else {
                        policies@[i].initial_premium
                    }) as int,
                    RATE_SCALE - spec_sc_rate(
                        old(self).assumptions.product.base.surrender_charges.view(),
                        crate::policy::spec_policy_year(
                            policies@[i].duration_months as int,
                            valuation_month as int,
                        ),
                    ),
                )
            },
    {
        let n = policies.len();
        let mut results: Vec<ReserveResult> = Vec::new();
        let mut i: usize = 0;
        while i < n
            invariant
                0 <= i <= n,
                n == policies@.len(),
                self.wf(),
                self.cache.entries@.len() < 1_000_000,
                valuation_month <= 88_000,
                forall|j: int| 0 <= j < n ==> (#[trigger] policies@[j]).wf(),
                results@.len() == i,
                self.assumptions == old(self).assumptions,
                forall|j: int| 0 <= j < i ==> {
                    &&& (#[trigger] results@[j]).gross_reserve >= results@[j].csv_at_valuation
                    &&& 0 <= results@[j].gross_reserve
                    &&& results@[j].policy_id == policies@[j].policy_id
                    &&& results@[j].valuation_date == valuation_month
                    &&& results@[j].csv_at_valuation == scale_down(
                        (if policies@[j].current_av is Some {
                            policies@[j].current_av->0
                        } else {
                            policies@[j].initial_premium
                        }) as int,
                        RATE_SCALE - spec_sc_rate(
                            old(self).assumptions.product.base.surrender_charges.view(),
                            crate::policy::spec_policy_year(
                                policies@[j].duration_months as int,
                                valuation_month as int,
                            ),
                        ),
                    )
                },
            decreases n - i,
        {
            let result = self.calculate_with_cache(&policies[i], valuation_month);
            results.push(result);
            i = i + 1;
        }
        results
    }
}

/// High-level reserve configuration carried inside a projection run.
#[derive(Debug, Clone, Copy)]
pub struct ReserveCalcConfig {
    /// Reserve method to report.
    pub method: ReserveMethod,
    /// Optimiser configuration.
    pub carvm_config: CARVMConfig,
    /// Valuation month (0 for issue-date reserves).
    pub valuation_month: u32,
}

impl ReserveCalcConfig {
    pub open spec fn wf(self) -> bool {
        &&& self.carvm_config.wf()
        &&& self.valuation_month <= 88_000
    }

    /// A quick configuration: brute force over thirty years with no caching,
    /// for spot checks.
    pub fn quick() -> (r: Self)
        ensures
            r.wf(),
            r.method == ReserveMethod::CARVM,
            r.carvm_config.method == CARVMMethod::BruteForce,
            r.carvm_config.max_projection_months == 360,
            !r.carvm_config.use_caching,
            r.carvm_config.max_deferral_years == 15,
            r.valuation_month == 0,
    {
        ReserveCalcConfig {
            method: ReserveMethod::CARVM,
            carvm_config: CARVMConfig {
                method: CARVMMethod::BruteForce,
                max_projection_months: 360,
                use_caching: false,
                revalidation_frequency: 12,
                revalidation_criteria: RevalidationCriteria::default_criteria(),
                max_deferral_years: 15,
            },
            valuation_month: 0,
        }
    }

    /// The full production configuration: the hybrid method over the whole
    /// horizon with caching.
    pub fn full() -> (r: Self)
        ensures
            r.wf(),
            r.method == ReserveMethod::CARVM,
            r.carvm_config.method == CARVMMethod::Hybrid,
            r.carvm_config.max_projection_months == 768,
            r.carvm_config.use_caching,
            r.carvm_config.max_deferral_years == 30,
            r.valuation_month == 0,
    {
        ReserveCalcConfig {
            method: ReserveMethod::CARVM,
            carvm_config: CARVMConfig::default_config(),
            valuation_month: 0,
        }
    }

    /// The same configuration at a different valuation month.
    pub fn at_month(self, month: u32) -> (r: Self)
        requires
            month <= 88_000,
        ensures
            r == (ReserveCalcConfig { valuation_month: month, ..self }),
    {
        ReserveCalcConfig { valuation_month: month, ..self }
    }
}

/// A cached reserve rolled forward from month `m` to `end`: at each month it
/// is divided by the product of the survival probability and the monthly
/// discount factor (capped, and left alone should that product vanish).
pub open spec fn spec_rolled_reserve(
    t: MortalityTable,
    policy: Policy,
    reserve: int,
    m: int,
    end: int,
    v: int,
) -> int
    decreases end - m,
{
    if m >= end {
        reserve
    } else {
        let age = crate::policy::spec_attained_age(
            policy.issue_age as int,
            policy.duration_months as int,
            m,
        );
        let q = spec_monthly_mortality(t, age, policy.gender, m);
        let pv = scale_down(RATE_SCALE - q, v);
        let next = if pv > 0 {
            let grown = (reserve * RATE_SCALE) / pv;
            if grown > MONEY_CAP {
                MONEY_CAP as int
            } else {
                grown
            }
        } else {
            reserve
        };
        spec_rolled_reserve(t, policy, next, m + 1, end, v)
    }
}

} // verus!
