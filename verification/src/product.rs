//! Product features: the surrender charge schedule, rider payout factors, the
//! rider's rollup and charge terms, the compensation schedule, and the base
//! contract terms.

use vstd::prelude::*;
use crate::fixed::{
    RATE_SCALE, scale_down, mul_money_rate, spec_monthly_compound_factor, monthly_compound_factor,
};

verus! {

/// Surrender charge rate for a policy year, against the schedule `charges`
/// (1-indexed by year): year 0 reads the first entry, years past the schedule
/// carry no charge.
pub open spec fn spec_sc_rate(charges: Seq<i64>, policy_year: int) -> int {
    if charges.len() == 0 {
        0
    } else if policy_year <= 1 {
        charges[0] as int
    } else if policy_year <= charges.len() {
        charges[policy_year - 1] as int
    } else {
        0
    }
}

/// Surrender charge schedule by policy year.
#[derive(Debug, Clone)]
pub struct SurrenderChargeSchedule {
    /// Surrender charge rates by policy year (1-indexed), scaled.
    pub charges: Vec<i64>,
}

impl SurrenderChargeSchedule {
    /// All rates are probabilities and the schedule has a sane length.
    pub open spec fn wf(self) -> bool {
        &&& forall|i: int| 0 <= i < self.charges@.len() ==> 0 <= #[trigger] self.charges@[i] <= RATE_SCALE
        &&& self.charges@.len() <= 1000
    }

    pub open spec fn view(self) -> Seq<i64> {
        self.charges@
    }

    /// Build a schedule from scaled per-year rates.
    pub fn from_loaded(charges: Vec<i64>) -> (r: Self)
        requires
            forall|i: int| 0 <= i < charges@.len() ==> 0 <= #[trigger] charges@[i] <= RATE_SCALE,
            charges@.len() <= 1000,
        ensures
            r.wf(),
            r.view() == charges@,
    {
        SurrenderChargeSchedule { charges }
    }

    /// The standard ten-year schedule: 9% in years one and two, then grading
    /// off by one point a year.
    pub fn default_10_year() -> (r: Self)
        ensures
            r.wf(),
            r.view().len() == 10,
            r.view()[0] == 90_000_000,
            r.view()[4] == 60_000_000,
            r.view()[9] == 10_000_000,
    {
        let charges: Vec<i64> = vec![
            90_000_000,
            90_000_000,
            80_000_000,
            70_000_000,
            60_000_000,
            50_000_000,
            40_000_000,
            30_000_000,
            20_000_000,
            10_000_000,
        ];
        SurrenderChargeSchedule { charges }
    }

    /// Surrender charge rate for a policy year; zero outside the schedule.
    pub fn get_rate(&self, policy_year: u32) -> (r: i64)
        requires
            self.wf(),
        ensures
            r == spec_sc_rate(self.view(), policy_year as int),
            0 <= r <= RATE_SCALE,
    {
        if self.charges.len() == 0 {
            0
        } else if policy_year <= 1 {
            self.charges[0]
        } else if (policy_year as usize) <= self.charges.len() {
            self.charges[(policy_year as usize) - 1]
        } else {
            0
        }
    }

    /// Whether a policy year still carries a surrender charge.
    pub fn in_sc_period(&self, policy_year: u32) -> (r: bool)
        requires
            self.wf(),
        ensures
            r == (spec_sc_rate(self.view(), policy_year as int) > 0),
    {
        self.get_rate(policy_year) > 0
    }

    /// Length of the schedule in years.
    pub fn sc_period_years(&self) -> (r: u32)
        requires
            self.wf(),
        ensures
            r == self.view().len(),
    {
        self.charges.len() as u32
    }
}

/// Payout rate whose age band contains `age`, scanning from band `i`; beyond
/// every band the maximum-band value applies.
pub open spec fn spec_band_rate(bands: Seq<(u8, u8, i64)>, age: int, i: int) -> int
    decreases bands.len() - i,
{
    if i < 0 || i >= bands.len() {
        90_000_000
    } else if bands[i].0 <= age <= bands[i].1 {
        bands[i].2 as int
    } else {
        spec_band_rate(bands, age, i + 1)
    }
}

/// Joint-life rate whose age band contains `age`, scanning from band `i`;
/// none when no band matches.
pub open spec fn spec_joint_band_rate(bands: Seq<(u8, u8, i64)>, age: int, i: int) -> Option<i64>
    decreases bands.len() - i,
{
    if i < 0 || i >= bands.len() {
        None
    } else if bands[i].0 <= age <= bands[i].1 {
        Some(bands[i].2)
    } else {
        spec_joint_band_rate(bands, age, i + 1)
    }
}

/// Rider payout factors by attained-age band.
#[derive(Debug, Clone)]
pub struct PayoutFactors {
    /// Single life payout factors: (low age, high age, scaled rate) bands.
    pub single_life: Vec<(u8, u8, i64)>,
    /// Joint life payout factors, where offered.
    pub joint_life: Option<Vec<(u8, u8, i64)>>,
}

impl PayoutFactors {
    pub open spec fn wf(self) -> bool {
        forall|i: int| 0 <= i < self.single_life@.len()
            ==> 0 <= (#[trigger] self.single_life@[i]).2 <= RATE_SCALE
    }

    pub open spec fn view(self) -> Seq<(u8, u8, i64)> {
        self.single_life@
    }

    /// Build from (low age, high age, scaled rate) bands.
    pub fn from_loaded(bands: Vec<(u8, u8, i64)>) -> (r: Self)
        requires
            forall|i: int| 0 <= i < bands@.len() ==> 0 <= (#[trigger] bands@[i]).2 <= RATE_SCALE,
        ensures
            r.wf(),
            r.view() == bands@,
    {
        PayoutFactors { single_life: bands, joint_life: None }
    }

    /// The product's standard single-life payout bands, 4.6% at the youngest
    /// band rising to 9% from age 86.
    pub fn default_bands() -> (r: Self)
        ensures
            r.wf(),
            r.view().len() == 8,
            r.view() == seq![
                (50u8, 55u8, 46_000_000i64),
                (56u8, 60u8, 50_000_000i64),
                (61u8, 65u8, 55_000_000i64),
                (66u8, 70u8, 60_000_000i64),
                (71u8, 75u8, 65_000_000i64),
                (76u8, 80u8, 70_000_000i64),
                (81u8, 85u8, 80_000_000i64),
                (86u8, 120u8, 90_000_000i64),
            ],
    {
        let bands: Vec<(u8, u8, i64)> = vec![
            (50u8, 55u8, 46_000_000i64),
            (56u8, 60u8, 50_000_000i64),
            (61u8, 65u8, 55_000_000i64),
            (66u8, 70u8, 60_000_000i64),
            (71u8, 75u8, 65_000_000i64),
            (76u8, 80u8, 70_000_000i64),
            (81u8, 85u8, 80_000_000i64),
            (86u8, 120u8, 90_000_000i64),
        ];
        proof {
            assert(bands@ =~= seq![
                (50u8, 55u8, 46_000_000i64),
                (56u8, 60u8, 50_000_000i64),
                (61u8, 65u8, 55_000_000i64),
                (66u8, 70u8, 60_000_000i64),
                (71u8, 75u8, 65_000_000i64),
                (76u8, 80u8, 70_000_000i64),
                (81u8, 85u8, 80_000_000i64),
                (86u8, 120u8, 90_000_000i64),
            ]);
        }
        PayoutFactors { single_life: bands, joint_life: None }
    }

    /// Single-life payout rate for an attained age.
    pub fn get_single_life(&self, attained_age: u8) -> (r: i64)
        requires
            self.wf(),
        ensures
            r == spec_band_rate(self.view(), attained_age as int, 0),
            0 <= r <= RATE_SCALE,
    {
        let n = self.single_life.len();
        let mut i: usize = 0;
        while i < n
            invariant
                0 <= i <= n,
                n == self.single_life@.len(),
                self.wf(),
                spec_band_rate(self.view(), attained_age as int, 0) == spec_band_rate(
                    self.view(),
                    attained_age as int,
                    i as int,
                ),
            decreases n - i,
        {
            let (lo, hi, rate) = self.single_life[i];
            if lo <= attained_age && attained_age <= hi {
                return rate;
            }
            i = i + 1;
        }
        90_000_000
    }

    /// Joint-life payout rate for an attained age, where the product offers one.
    pub fn get_joint_life(&self, attained_age: u8) -> (r: Option<i64>)
        ensures
            self.joint_life is None ==> r is None,
    {
        match &self.joint_life {
            None => None,
            Some(bands) => {
                let n = bands.len();
                let mut i: usize = 0;
                while i < n
                    invariant
                        0 <= i <= n,
                        n == bands@.len(),
                        self.joint_life is Some,
                    decreases n - i,
                {
                    let (lo, hi, rate) = bands[i];
                    if lo <= attained_age && attained_age <= hi {
                        return Some(rate);
                    }
                    i = i + 1;
                }
                None
            },
        }
    }
}

/// Rider terms: bonus, rollup, charges and payout factors.
#[derive(Debug, Clone)]
pub struct GlwbFeatures {
    /// Minimum age for income activation.
    pub min_activation_age: u8,
    /// Bonus applied to the initial premium for the benefit base, scaled.
    pub bonus_rate: i64,
    /// Annual rollup rate for the benefit base, scaled.
    pub rollup_rate: i64,
    /// Maximum years of rollup.
    pub rollup_years: u8,
    /// Whether the rollup is simple rather than compound interest.
    pub simple_rollup: bool,
    /// Annual rider charge before income activation, scaled.
    pub pre_activation_charge: i64,
    /// Annual rider charge after income activation, scaled.
    pub post_activation_charge: i64,
    /// Payout factors by age.
    pub payout_factors: PayoutFactors,
}

impl GlwbFeatures {
    pub open spec fn wf(self) -> bool {
        &&& 0 <= self.bonus_rate <= RATE_SCALE
        &&& 0 <= self.rollup_rate <= RATE_SCALE
        &&& 0 <= self.pre_activation_charge <= RATE_SCALE
        &&& 0 <= self.post_activation_charge <= RATE_SCALE
        &&& self.payout_factors.wf()
    }

    /// The product's standard rider: 30% bonus, 10% simple rollup for ten
    /// years, 0.5% charge before activation and 1.5% after.
    pub fn default_features() -> (r: Self)
        ensures
            r.wf(),
            r.min_activation_age == 50,
            r.bonus_rate == 300_000_000,
            r.rollup_rate == 100_000_000,
            r.rollup_years == 10,
            r.simple_rollup,
            r.pre_activation_charge == 5_000_000,
            r.post_activation_charge == 15_000_000,
            r.payout_factors.view().len() == 8,
    {
        GlwbFeatures {
            min_activation_age: 50,
            bonus_rate: 300_000_000,
            rollup_rate: 100_000_000,
            rollup_years: 10,
            simple_rollup: true,
            pre_activation_charge: 5_000_000,
            post_activation_charge: 15_000_000,
            payout_factors: PayoutFactors::default_bands(),
        }
    }

    /// Monthly rider charge rate: one twelfth of the annual charge for the
    /// current activation status.
    pub fn monthly_rider_charge(&self, income_activated: bool) -> (r: i64)
        requires
            self.wf(),
        ensures
            r == (if income_activated {
                self.post_activation_charge as int
            } else {
                self.pre_activation_charge as int
            }) / 12,
    {
        let annual = if income_activated {
            self.post_activation_charge
        } else {
            self.pre_activation_charge
        };
        annual / 12
    }

    /// Monthly benefit base rollup factor: one during income or past the
    /// rollup period; simple rollup adds a twelfth of the annual rate, and
    /// compound rollup takes the twelfth root of one plus the rate through its
    /// reciprocal.
    pub fn monthly_rollup_factor(&self, policy_year: u32, income_activated: bool) -> (r: i64)
        requires
            self.wf(),
        ensures
            income_activated || policy_year > self.rollup_years ==> r == RATE_SCALE,
            !income_activated && policy_year <= self.rollup_years && self.simple_rollup ==> r
                == RATE_SCALE + self.rollup_rate / 12,
            !income_activated && policy_year <= self.rollup_years && !self.simple_rollup ==> r
                == spec_monthly_compound_factor(self.rollup_rate as int),
            RATE_SCALE <= r <= 2 * RATE_SCALE,
    {
        if income_activated || policy_year > self.rollup_years as u32 {
            return RATE_SCALE;
        }
        if self.simple_rollup {
            RATE_SCALE + self.rollup_rate / 12
        } else {
            monthly_compound_factor(self.rollup_rate)
        }
    }

    /// Maximum annual rider withdrawal for a benefit base at an attained age.
    pub fn max_annual_withdrawal(&self, benefit_base: i64, attained_age: u8) -> (r: i64)
        requires
            self.wf(),
            0 <= benefit_base <= crate::fixed::MONEY_CAP,
        ensures
            r == scale_down(
                benefit_base as int,
                spec_band_rate(self.payout_factors.view(), attained_age as int, 0),
            ),
    {
        let payout_rate = self.payout_factors.get_single_life(attained_age);
        mul_money_rate(benefit_base, payout_rate)
    }
}

/// Compensation schedule: commission rates applied to the initial premium,
/// the bonus compensation rate, and the chargeback factor.
#[derive(Debug, Clone)]
pub struct CommissionSchedule {
    /// Agent commission rate on premium, scaled.
    pub agent_rate: i64,
    /// Marketing organisation override rate on premium, scaled.
    pub imo_override_rate: i64,
    /// Marketing organisation conversion owed rate on premium, scaled.
    pub imo_conversion_rate: i64,
    /// Wholesaler override rate on premium, scaled.
    pub wholesaler_override_rate: i64,
    /// Wholesaler conversion owed rate on premium, scaled.
    pub wholesaler_conversion_rate: i64,
    /// Bonus compensation rate applied to the account value in month 13, scaled.
    pub bonus_comp_rate: i64,
}

impl CommissionSchedule {
    pub open spec fn wf(self) -> bool {
        &&& 0 <= self.agent_rate <= RATE_SCALE
        &&& 0 <= self.imo_override_rate <= RATE_SCALE
        &&& 0 <= self.imo_conversion_rate <= RATE_SCALE
        &&& 0 <= self.wholesaler_override_rate <= RATE_SCALE
        &&& 0 <= self.wholesaler_conversion_rate <= RATE_SCALE
        &&& 0 <= self.bonus_comp_rate <= RATE_SCALE
    }

    /// A schedule that pays nothing; rates are configured per distribution deal.
    pub fn none() -> (r: Self)
        ensures
            r.wf(),
            r.agent_rate == 0,
            r.imo_override_rate == 0,
            r.imo_conversion_rate == 0,
            r.wholesaler_override_rate == 0,
            r.wholesaler_conversion_rate == 0,
            r.bonus_comp_rate == 0,
    {
        CommissionSchedule {
            agent_rate: 0,
            imo_override_rate: 0,
            imo_conversion_rate: 0,
            wholesaler_override_rate: 0,
            wholesaler_conversion_rate: 0,
            bonus_comp_rate: 0,
        }
    }

    /// First-month commissions on a premium: agent, marketing override and
    /// conversion owed, wholesaler override and conversion owed.
    pub fn calculate_commissions(&self, premium: i64, _issue_age: u8) -> (r: (
        i64,
        i64,
        i64,
        i64,
        i64,
    ))
        requires
            self.wf(),
            0 <= premium <= crate::fixed::MONEY_CAP,
        ensures
            r.0 == scale_down(premium as int, self.agent_rate as int),
            r.1 == scale_down(premium as int, self.imo_override_rate as int),
            r.2 == scale_down(premium as int, self.imo_conversion_rate as int),
            r.3 == scale_down(premium as int, self.wholesaler_override_rate as int),
            r.4 == scale_down(premium as int, self.wholesaler_conversion_rate as int),
            0 <= r.0 <= premium,
            0 <= r.1 <= premium,
            0 <= r.2 <= premium,
            0 <= r.3 <= premium,
            0 <= r.4 <= premium,
    {
        (
            mul_money_rate(premium, self.agent_rate),
            mul_money_rate(premium, self.imo_override_rate),
            mul_money_rate(premium, self.imo_conversion_rate),
            mul_money_rate(premium, self.wholesaler_override_rate),
            mul_money_rate(premium, self.wholesaler_conversion_rate),
        )
    }

    /// Bonus compensation rate for an issue age.
    pub fn bonus_rate(&self, _issue_age: u8) -> (r: i64)
        requires
            self.wf(),
        ensures
            r == self.bonus_comp_rate,
            0 <= r <= RATE_SCALE,
    {
        self.bonus_comp_rate
    }

    /// Chargeback factor: full recovery in the first six projection months of
    /// policy year one, half in the rest of that year, none afterwards.
    pub fn chargeback_factor(&self, projection_month: u32, policy_year: u32) -> (r: i64)
        ensures
            policy_year != 1 ==> r == 0,
            policy_year == 1 && projection_month <= 6 ==> r == RATE_SCALE,
            policy_year == 1 && projection_month > 6 ==> r == RATE_SCALE / 2,
            0 <= r <= RATE_SCALE,
    {
        if policy_year != 1 {
            0
        } else if projection_month <= 6 {
            RATE_SCALE
        } else {
            RATE_SCALE / 2
        }
    }
}

/// Base (non-rider) contract terms.
#[derive(Debug, Clone)]
pub struct BaseProductFeatures {
    /// Surrender charge schedule.
    pub surrender_charges: SurrenderChargeSchedule,
    /// Free partial withdrawal percentage per year, scaled.
    pub free_withdrawal_pct: i64,
    /// Annual expense rate on the account value, scaled.
    pub expense_rate_of_av: i64,
    /// Minimum premium, in cents.
    pub min_premium: i64,
    /// Maximum premium, in cents.
    pub max_premium: i64,
    /// Minimum issue age.
    pub min_issue_age: u8,
    /// Maximum issue age.
    pub max_issue_age: u8,
}

impl BaseProductFeatures {
    pub open spec fn wf(self) -> bool {
        &&& self.surrender_charges.wf()
        &&& 0 <= self.free_withdrawal_pct <= RATE_SCALE
        &&& 0 <= self.expense_rate_of_av <= RATE_SCALE
    }

    /// Standard terms: the ten-year schedule, a 5% free withdrawal and a 0.25%
    /// annual expense rate.
    pub fn default_features() -> (r: Self)
        ensures
            r.wf(),
            r.free_withdrawal_pct == 50_000_000,
            r.expense_rate_of_av == 2_500_000,
            r.surrender_charges.view().len() == 10,
            r.min_issue_age == 40,
            r.max_issue_age == 80,
    {
        BaseProductFeatures {
            surrender_charges: SurrenderChargeSchedule::default_10_year(),
            free_withdrawal_pct: 50_000_000,
            expense_rate_of_av: 2_500_000,
            min_premium: 2_500_000,
            max_premium: 100_000_000,
            min_issue_age: 40,
            max_issue_age: 80,
        }
    }
}

/// Combined product features.
#[derive(Debug, Clone)]
pub struct ProductFeatures {
    pub base: BaseProductFeatures,
    pub glwb: GlwbFeatures,
    pub commissions: CommissionSchedule,
}

impl ProductFeatures {
    pub open spec fn wf(self) -> bool {
        &&& self.base.wf()
        &&& self.glwb.wf()
        &&& self.commissions.wf()
    }

    /// The standard product.
    pub fn default_features() -> (r: Self)
        ensures
            r.wf(),
            r.base.free_withdrawal_pct == 50_000_000,
            r.base.surrender_charges.view().len() == 10,
            r.glwb.bonus_rate == 300_000_000,
            r.glwb.rollup_rate == 100_000_000,
            r.commissions.agent_rate == 0,
    {
        ProductFeatures {
            base: BaseProductFeatures::default_features(),
            glwb: GlwbFeatures::default_features(),
            commissions: CommissionSchedule::none(),
        }
    }

    /// Build from a loaded surrender charge schedule and payout factor bands,
    /// keeping the standard terms for the rest.
    pub fn from_loaded(charges: Vec<i64>, payout_bands: Vec<(u8, u8, i64)>) -> (r: Self)
        requires
            forall|i: int| 0 <= i < charges@.len() ==> 0 <= #[trigger] charges@[i] <= RATE_SCALE,
            charges@.len() <= 1000,
            forall|i: int| 0 <= i < payout_bands@.len()
                ==> 0 <= (#[trigger] payout_bands@[i]).2 <= RATE_SCALE,
        ensures
            r.wf(),
            r.base.surrender_charges.view() == charges@,
            r.glwb.payout_factors.view() == payout_bands@,
    {
        let mut features = ProductFeatures::default_features();
        features.base.surrender_charges = SurrenderChargeSchedule::from_loaded(charges);
        features.glwb.payout_factors = PayoutFactors::from_loaded(payout_bands);
        features
    }
}

} // verus!
