//! Mortality assumptions: base annual rates by age and gender, multiplicative
//! age factors, age-gender improvement rates, and the conversion of the
//! improved annual rate to a monthly rate.

use vstd::prelude::*;
use vstd::pervasive::VecAdditionalExecFns;
use crate::fixed::{
    RATE_SCALE, scale_down, mul_money_rate, spec_pow_fx, pow_fx, spec_root_up, root_fx,
    spec_monthly_from_annual, monthly_from_annual,
};
use crate::policy::Gender;

verus! {

/// Method for converting annual mortality rates to monthly.
#[derive(Debug, Clone, Copy, PartialEq, Eq, Structural)]
pub enum MonthlyConversion {
    /// Standard actuarial conversion: one minus the twelfth root of the
    /// annual survival.
    Standard,
    /// Simple division of the annual rate by twelve.
    SimpleDivision,
    /// Legacy spreadsheet method: the age factor is applied a second time and
    /// the result divided by twelve.
    ExcelMethod,
}

/// The member of a (female, male) pair for a gender.
pub open spec fn spec_pick(pair: (i64, i64), gender: Gender) -> int {
    match gender {
        Gender::Female => pair.0 as int,
        Gender::Male => pair.1 as int,
    }
}

/// Raw base annual rate by age, one unit past the table end.
pub open spec fn spec_raw_base_rate(base: Seq<(i64, i64)>, age: int, gender: Gender) -> int {
    if 0 <= age < base.len() {
        spec_pick(base[age], gender)
    } else {
        RATE_SCALE as int
    }
}

/// Age factor by age, one unit past the table end.
pub open spec fn spec_age_factor(factors: Seq<i64>, age: int) -> int {
    if 0 <= age < factors.len() {
        factors[age] as int
    } else {
        RATE_SCALE as int
    }
}

/// Improvement rate by age and gender, zero past the table end.
pub open spec fn spec_improvement_rate(
    imp: Seq<(i64, i64)>,
    age: int,
    gender: Gender,
) -> int {
    if 0 <= age < imp.len() {
        spec_pick(imp[age], gender)
    } else {
        0
    }
}

/// Improvement factor after `twelfths` twelfths of a year, for a survival
/// ratio `x` of one minus the annual improvement rate: `x` to the whole years,
/// times the upward-rounded twelfth root of `x` to the remaining months.
pub open spec fn spec_improvement_factor(x: int, twelfths: int) -> int {
    scale_down(
        spec_pow_fx(x, (twelfths / 12) as nat),
        spec_root_up(spec_pow_fx(x, (twelfths % 12) as nat), 12),
    )
}

/// The default age-factor schedule: 0.6 up to age 60, grading linearly to 1.0
/// at age 90, 1.0 beyond.
pub open spec fn spec_default_age_factor(age: int) -> int {
    if age <= 60 {
        600_000_000
    } else if age >= 90 {
        RATE_SCALE as int
    } else {
        600_000_000 + (age - 60) * 40_000_000 / 3
    }
}

/// Mortality table with separate base rates and adjustment factors.
#[derive(Debug, Clone)]
pub struct MortalityTable {
    /// Base annual rates by age, stored as (female, male), scaled.
    pub base_rates: Vec<(i64, i64)>,
    /// Multiplicative factors by attained age, scaled.
    pub age_factors: Vec<i64>,
    /// Annual improvement rates by age, stored as (female, male), scaled.
    pub improvement_rates: Vec<(i64, i64)>,
    /// Method for converting annual rates to monthly.
    pub conversion_method: MonthlyConversion,
    /// Base year of the mortality table, for improvement.
    pub table_base_year: u32,
    /// Projection start year.
    pub projection_year: u32,
}

impl MortalityTable {
    /// Rates are probabilities, factors stay under two units, and the
    /// projection year sits within a millennium after the table's base year.
    pub open spec fn wf(self) -> bool {
        &&& forall|i: int| 0 <= i < self.base_rates@.len() ==> {
            &&& 0 <= (#[trigger] self.base_rates@[i]).0 <= RATE_SCALE
            &&& 0 <= self.base_rates@[i].1 <= RATE_SCALE
        }
        &&& forall|i: int| 0 <= i < self.age_factors@.len()
            ==> 0 <= #[trigger] self.age_factors@[i] <= 2 * RATE_SCALE
        &&& forall|i: int| 0 <= i < self.improvement_rates@.len() ==> {
            &&& 0 <= (#[trigger] self.improvement_rates@[i]).0 <= RATE_SCALE
            &&& 0 <= self.improvement_rates@[i].1 <= RATE_SCALE
        }
        &&& self.table_base_year < self.projection_year <= self.table_base_year + 1000
    }

    /// Annual base rate before the age factor, scaled; one unit past the table.
    pub fn raw_base_rate(&self, attained_age: u8, gender: Gender) -> (r: i64)
        requires
            self.wf(),
        ensures
            r == spec_raw_base_rate(self.base_rates@, attained_age as int, gender),
            0 <= r <= RATE_SCALE,
    {
        let age = attained_age as usize;
        if age >= self.base_rates.len() {
            return RATE_SCALE;
        }
        let (female, male) = self.base_rates[age];
        match gender {
            Gender::Female => female,
            Gender::Male => male,
        }
    }

    /// Age factor for an attained age; one unit past the table.
    pub fn get_age_factor(&self, attained_age: u8) -> (r: i64)
        requires
            self.wf(),
        ensures
            r == spec_age_factor(self.age_factors@, attained_age as int),
            0 <= r <= 2 * RATE_SCALE,
    {
        let age = attained_age as usize;
        if age >= self.age_factors.len() {
            RATE_SCALE
        } else {
            self.age_factors[age]
        }
    }

    /// Annual improvement rate for an age and gender; zero past the table.
    pub fn improvement_rate(&self, attained_age: u8, gender: Gender) -> (r: i64)
        requires
            self.wf(),
        ensures
            r == spec_improvement_rate(self.improvement_rates@, attained_age as int, gender),
            0 <= r <= RATE_SCALE,
    {
        let age = attained_age as usize;
        if age >= self.improvement_rates.len() {
            return 0;
        }
        let (female, male) = self.improvement_rates[age];
        match gender {
            Gender::Female => female,
            Gender::Male => male,
        }
    }

    /// Best-estimate annual rate: the base rate times the age factor, capped
    /// at one unit; one unit past the table end.
    pub fn baseline_annual_rate(&self, attained_age: u8, gender: Gender) -> (r: i64)
        requires
            self.wf(),
        ensures
            r == spec_baseline_annual(
                self.base_rates@,
                self.age_factors@,
                attained_age as int,
                gender,
            ),
            0 <= r <= RATE_SCALE,
    {
        if (attained_age as usize) >= self.base_rates.len() {
            return RATE_SCALE;
        }
        let base = self.raw_base_rate(attained_age, gender);
        let factor = self.get_age_factor(attained_age);
        let raw = mul_money_rate(base, factor);
        if raw > RATE_SCALE {
            RATE_SCALE
        } else {
            raw
        }
    }

    /// Monthly mortality rate for an age and gender at a projection month.
    ///
    /// The best-estimate annual rate is improved by the age's improvement rate
    /// over `(projection_year - table_base_year - 1) + month/12` years, then
    /// converted to monthly by the configured method.  Ages past the table end
    /// return one twelfth of a unit.
    pub fn monthly_rate(&self, attained_age: u8, gender: Gender, projection_month: u32) -> (r:
        i64)
        requires
            self.wf(),
            projection_month <= 120_000,
        ensures
            r == spec_monthly_mortality(*self, attained_age as int, gender, projection_month as int),
            0 <= r <= RATE_SCALE,
    {
        if (attained_age as usize) >= self.base_rates.len() {
            proof {
                vstd::arithmetic::div_mod::lemma_div_pos_is_pos(RATE_SCALE as int, 12);
                vstd::arithmetic::div_mod::lemma_div_nonincreasing(RATE_SCALE as int, 12);
            }
            return RATE_SCALE / 12;
        }
        let best_estimate = self.baseline_annual_rate(attained_age, gender);
        let improvement = self.improvement_rate(attained_age, gender);
        let x: i64 = RATE_SCALE - improvement;

        // Twelfths of a year of improvement from the table base year.
        let twelfths: u32 = (self.projection_year - self.table_base_year - 1) * 12
            + projection_month;
        let whole = pow_fx(x, twelfths / 12);
        let part = root_fx(pow_fx(x, twelfths % 12), 12);
        let factor = mul_money_rate(whole, part);
        let improved = mul_money_rate(best_estimate, factor);

        match self.conversion_method {
            MonthlyConversion::Standard => monthly_from_annual(improved, 15),
            MonthlyConversion::SimpleDivision => {
                proof {
                    vstd::arithmetic::div_mod::lemma_div_pos_is_pos(improved as int, 12);
                    vstd::arithmetic::div_mod::lemma_div_nonincreasing(improved as int, 12);
                }
                improved / 12
            },
            MonthlyConversion::ExcelMethod => {
                let factor_again = self.get_age_factor(attained_age);
                let doubled = mul_money_rate(best_estimate, factor_again);
                proof {
                    vstd::arithmetic::div_mod::lemma_div_pos_is_pos(doubled as int, 12);
                    vstd::arithmetic::div_mod::lemma_div_nonincreasing(doubled as int, 12);
                }
                let monthly = doubled / 12;
                let capped = if monthly > RATE_SCALE {
                    RATE_SCALE
                } else {
                    monthly
                };
                mul_money_rate(capped, factor)
            },
        }
    }

    /// Set the table base year and projection year for improvement.
    pub fn set_improvement_years(&mut self, table_base_year: u32, projection_year: u32)
        requires
            table_base_year < projection_year <= table_base_year + 1000,
        ensures
            final(self).table_base_year == table_base_year,
            final(self).projection_year == projection_year,
            final(self).base_rates == old(self).base_rates,
            final(self).age_factors == old(self).age_factors,
            final(self).improvement_rates == old(self).improvement_rates,
            final(self).conversion_method == old(self).conversion_method,
            old(self).wf() ==> final(self).wf(),
    {
        self.table_base_year = table_base_year;
        self.projection_year = projection_year;
    }

    /// Set the monthly conversion method.
    pub fn set_conversion_method(&mut self, method: MonthlyConversion)
        ensures
            *final(self) == (MortalityTable { conversion_method: method, ..*old(self) }),
    {
        self.conversion_method = method;
    }

    /// Set one age factor; ages outside the table are left alone.
    pub fn set_age_factor(&mut self, age: usize, factor: i64)
        requires
            0 <= factor <= 2 * RATE_SCALE,
        ensures
            age < old(self).age_factors@.len() ==> final(self).age_factors@ == old(
                self,
            ).age_factors@.update(age as int, factor),
            age >= old(self).age_factors@.len() ==> final(self).age_factors@ == old(
                self,
            ).age_factors@,
            final(self).base_rates == old(self).base_rates,
            final(self).improvement_rates == old(self).improvement_rates,
            final(self).conversion_method == old(self).conversion_method,
            final(self).table_base_year == old(self).table_base_year,
            final(self).projection_year == old(self).projection_year,
            old(self).wf() ==> final(self).wf(),
    {
        if age < self.age_factors.len() {
            self.age_factors.set(age, factor);
        }
    }

    /// Replace every improvement rate with one flat rate.
    pub fn set_improvement_rate(&mut self, rate: i64)
        requires
            0 <= rate <= RATE_SCALE,
        ensures
            final(self).improvement_rates@.len() == 121,
            forall|i: int| 0 <= i < 121 ==> final(self).improvement_rates@[i] == (rate, rate),
            final(self).base_rates == old(self).base_rates,
            final(self).age_factors == old(self).age_factors,
            final(self).conversion_method == old(self).conversion_method,
            final(self).table_base_year == old(self).table_base_year,
            final(self).projection_year == old(self).projection_year,
            old(self).wf() ==> final(self).wf(),
    {
        let mut rates: Vec<(i64, i64)> = Vec::new();
        let mut i: usize = 0;
        while i < 121
            invariant
                0 <= i <= 121,
                rates@.len() == i,
                forall|j: int| 0 <= j < i ==> rates@[j] == (rate, rate),
            decreases 121 - i,
        {
            rates.push((rate, rate));
            i = i + 1;
        }
        self.improvement_rates = rates;
    }
}

/// Best-estimate annual rate: base times age factor, capped at one unit; one
/// unit past the table end.
pub open spec fn spec_baseline_annual(
    base: Seq<(i64, i64)>,
    factors: Seq<i64>,
    age: int,
    gender: Gender,
) -> int {
    if age >= base.len() {
        RATE_SCALE as int
    } else {
        let raw = scale_down(spec_raw_base_rate(base, age, gender), spec_age_factor(factors, age));
        if raw > RATE_SCALE {
            RATE_SCALE as int
        } else {
            raw
        }
    }
}

/// The monthly mortality rate of `monthly_rate`, as a value.
pub open spec fn spec_monthly_mortality(
    t: MortalityTable,
    age: int,
    gender: Gender,
    projection_month: int,
) -> int {
    if age >= t.base_rates@.len() {
        RATE_SCALE as int / 12
    } else {
        let best = spec_baseline_annual(t.base_rates@, t.age_factors@, age, gender);
        let x = RATE_SCALE - spec_improvement_rate(t.improvement_rates@, age, gender);
        let twelfths = (t.projection_year - t.table_base_year - 1) * 12 + projection_month;
        let f = spec_improvement_factor(x, twelfths);
        let improved = scale_down(best, f);
        match t.conversion_method {
            MonthlyConversion::Standard => spec_monthly_from_annual(improved, 15),
            MonthlyConversion::SimpleDivision => improved / 12,
            MonthlyConversion::ExcelMethod => {
                let doubled = scale_down(best, spec_age_factor(t.age_factors@, age));
                let monthly = doubled / 12;
                let capped = if monthly > RATE_SCALE {
                    RATE_SCALE as int
                } else {
                    monthly
                };
                scale_down(capped, f)
            },
        }
    }
}

/// The default age factor schedule over ages 0..=120.
pub fn default_age_factors() -> (r: Vec<i64>)
    ensures
        r@.len() == 121,
        forall|i: int| 0 <= i < 121 ==> #[trigger] r@[i] == spec_default_age_factor(i),
{
    let mut factors: Vec<i64> = Vec::new();
    let mut age: usize = 0;
    while age < 121
        invariant
            0 <= age <= 121,
            factors@.len() == age,
            forall|i: int| 0 <= i < age ==> #[trigger] factors@[i] == spec_default_age_factor(i),
        decreases 121 - age,
    {
        let f: i64 = if age <= 60 {
            600_000_000
        } else if age >= 90 {
            RATE_SCALE
        } else {
            600_000_000 + ((age as i64) - 60) * 40_000_000 / 3
        };
        factors.push(f);
        age = age + 1;
    }
    factors
}

/// Flat age factors of one unit over ages 0..=120.
pub fn flat_age_factors() -> (r: Vec<i64>)
    ensures
        r@.len() == 121,
        forall|i: int| 0 <= i < 121 ==> #[trigger] r@[i] == RATE_SCALE,
{
    let mut factors: Vec<i64> = Vec::new();
    let mut age: usize = 0;
    while age < 121
        invariant
            0 <= age <= 121,
            factors@.len() == age,
            forall|i: int| 0 <= i < age ==> #[trigger] factors@[i] == RATE_SCALE,
        decreases 121 - age,
    {
        factors.push(RATE_SCALE);
        age = age + 1;
    }
    factors
}

/// Age factors grading linearly from `start_factor` at `start_age` to
/// `end_factor` at `end_age`, flat on both sides.
pub open spec fn spec_graded_age_factor(
    start_age: int,
    end_age: int,
    start_factor: int,
    end_factor: int,
    age: int,
) -> int {
    if age <= start_age {
        start_factor
    } else if age >= end_age {
        end_factor
    } else {
        start_factor + (end_factor - start_factor) * (age - start_age) / (end_age - start_age)
    }
}

/// Build a graded age factor schedule over ages 0..=120.
pub fn graded_age_factors(start_age: usize, end_age: usize, start_factor: i64, end_factor: i64) -> (r:
    Vec<i64>)
    requires
        start_age < end_age <= 120,
        0 <= start_factor <= end_factor <= 2 * RATE_SCALE,
    ensures
        r@.len() == 121,
        forall|i: int| 0 <= i < 121 ==> #[trigger] r@[i] == spec_graded_age_factor(
            start_age as int,
            end_age as int,
            start_factor as int,
            end_factor as int,
            i,
        ),
{
    let mut factors: Vec<i64> = Vec::new();
    let mut age: usize = 0;
    while age < 121
        invariant
            0 <= age <= 121,
            start_age < end_age <= 120,
            0 <= start_factor <= end_factor <= 2 * RATE_SCALE,
            factors@.len() == age,
            forall|i: int| 0 <= i < age ==> #[trigger] factors@[i] == spec_graded_age_factor(
                start_age as int,
                end_age as int,
                start_factor as int,
                end_factor as int,
                i,
            ),
        decreases 121 - age,
    {
        let f: i64 = if age <= start_age {
            start_factor
        } else if age >= end_age {
            end_factor
        } else {
            proof {
                lemma_graded_in_range(
                    start_age as int,
                    end_age as int,
                    start_factor as int,
                    end_factor as int,
                    age as int,
                );
            }
            start_factor + ((end_factor - start_factor) * ((age as i64) - (start_age as i64)))
                / ((end_age as i64) - (start_age as i64))
        };
        factors.push(f);
        age = age + 1;
    }
    factors
}

/// The graded increment stays between zero and the factor difference.
proof fn lemma_graded_in_range(s: int, e: int, sf: int, ef: int, age: int)
    requires
        0 <= s < age < e,
        e <= 120,
        0 <= sf <= ef <= 2 * RATE_SCALE,
    ensures
        0 <= (ef - sf) * (age - s) <= 240_000_000_000,
        0 <= (ef - sf) * (age - s) / (e - s) <= ef - sf,
{
    vstd::arithmetic::mul::lemma_mul_nonnegative(ef - sf, age - s);
    vstd::arithmetic::mul::lemma_mul_upper_bound(ef - sf, 2_000_000_000, age - s, 120);
    assert((ef - sf) * (age - s) <= (e - s) * (ef - sf)) by (nonlinear_arith)
        requires
            s < age < e,
            0 <= sf <= ef,
    ;
    vstd::arithmetic::div_mod::lemma_div_pos_is_pos((ef - sf) * (age - s), e - s);
    vstd::arithmetic::div_mod::lemma_div_is_ordered(
        (ef - sf) * (age - s),
        (e - s) * (ef - sf),
        e - s,
    );
    vstd::arithmetic::div_mod::lemma_div_multiples_vanish(ef - sf, e - s);
}

impl MortalityTable {
    /// The standard individual-annuity basic table with the default age
    /// factors and improvement schedule, based in 2012 and projected to 2026.
    pub fn standard_table() -> (r: Self)
        ensures
            r.wf(),
            r.base_rates@.len() == 121,
            r.age_factors@.len() == 121,
            r.improvement_rates@.len() == 121,
            r.conversion_method == MonthlyConversion::Standard,
            r.table_base_year == 2012,
            r.projection_year == 2026,
            r.base_rates@ == spec_standard_base_rates(),
            r.improvement_rates@ == spec_default_improvement_rates(),
            r.base_rates@[77] == (19_500_000i64, 26_155_000i64),
            r.improvement_rates@[77] == (13_000_000i64, 15_000_000i64),
            forall|i: int| 0 <= i < 121 ==> #[trigger] r.age_factors@[i]
                == spec_default_age_factor(i),
    {
        MortalityTable {
            base_rates: standard_base_rates(),
            age_factors: default_age_factors(),
            improvement_rates: default_improvement_rates(),
            conversion_method: MonthlyConversion::Standard,
            table_base_year: 2012,
            projection_year: 2026,
        }
    }

    /// Build a table from loaded rate vectors, with the standard years and
    /// conversion method.
    pub fn from_loaded(
        base_rates: Vec<(i64, i64)>,
        age_factors: Vec<i64>,
        improvement_rates: Vec<(i64, i64)>,
    ) -> (r: Self)
        requires
            forall|i: int| 0 <= i < base_rates@.len() ==> {
                &&& 0 <= (#[trigger] base_rates@[i]).0 <= RATE_SCALE
                &&& 0 <= base_rates@[i].1 <= RATE_SCALE
            },
            forall|i: int| 0 <= i < age_factors@.len()
                ==> 0 <= #[trigger] age_factors@[i] <= 2 * RATE_SCALE,
            forall|i: int| 0 <= i < improvement_rates@.len() ==> {
                &&& 0 <= (#[trigger] improvement_rates@[i]).0 <= RATE_SCALE
                &&& 0 <= improvement_rates@[i].1 <= RATE_SCALE
            },
        ensures
            r.wf(),
            r.base_rates@ == base_rates@,
            r.age_factors@ == age_factors@,
            r.improvement_rates@ == improvement_rates@,
            r.conversion_method == MonthlyConversion::Standard,
            r.table_base_year == 2012,
            r.projection_year == 2026,
    {
        MortalityTable {
            base_rates,
            age_factors,
            improvement_rates,
            conversion_method: MonthlyConversion::Standard,
            table_base_year: 2012,
            projection_year: 2026,
        }
    }

    /// Build a table with one flat improvement rate for every age.
    pub fn new(
        base_rates: Vec<(i64, i64)>,
        age_factors: Vec<i64>,
        improvement_rate: i64,
        conversion_method: MonthlyConversion,
    ) -> (r: Self)
        requires
            forall|i: int| 0 <= i < base_rates@.len() ==> {
                &&& 0 <= (#[trigger] base_rates@[i]).0 <= RATE_SCALE
                &&& 0 <= base_rates@[i].1 <= RATE_SCALE
            },
            forall|i: int| 0 <= i < age_factors@.len()
                ==> 0 <= #[trigger] age_factors@[i] <= 2 * RATE_SCALE,
            0 <= improvement_rate <= RATE_SCALE,
        ensures
            r.wf(),
            r.base_rates@ == base_rates@,
            r.age_factors@ == age_factors@,
            r.improvement_rates@.len() == 121,
            forall|i: int| 0 <= i < 121 ==> #[trigger] r.improvement_rates@[i] == (
                improvement_rate,
                improvement_rate,
            ),
            r.conversion_method == conversion_method,
    {
        let mut improvement_rates: Vec<(i64, i64)> = Vec::new();
        let mut i: usize = 0;
        while i < 121
            invariant
                0 <= i <= 121,
                improvement_rates@.len() == i,
                forall|j: int| 0 <= j < i ==> #[trigger] improvement_rates@[j] == (
                    improvement_rate,
                    improvement_rate,
                ),
            decreases 121 - i,
        {
            improvement_rates.push((improvement_rate, improvement_rate));
            i = i + 1;
        }
        MortalityTable {
            base_rates,
            age_factors,
            improvement_rates,
            conversion_method,
            table_base_year: 2012,
            projection_year: 2026,
        }
    }

    /// Table base year.
    pub fn table_base_year(&self) -> (r: u32)
        ensures
            r == self.table_base_year,
    {
        self.table_base_year
    }

    /// Projection start year.
    pub fn projection_year(&self) -> (r: u32)
        ensures
            r == self.projection_year,
    {
        self.projection_year
    }

    /// The age factors.
    pub fn age_factors(&self) -> (r: &Vec<i64>)
        ensures
            r@ == self.age_factors@,
    {
        &self.age_factors
    }

    /// Replace the age factors.
    pub fn set_age_factors(&mut self, factors: Vec<i64>)
        requires
            forall|i: int| 0 <= i < factors@.len() ==> 0 <= #[trigger] factors@[i] <= 2
                * RATE_SCALE,
        ensures
            *final(self) == (MortalityTable { age_factors: factors, ..*old(self) }),
            old(self).wf() ==> final(self).wf(),
    {
        self.age_factors = factors;
    }

    /// Scale every age factor by a multiplier, capping at two units.
    pub fn scale_age_factors(&mut self, multiplier: i64)
        requires
            old(self).wf(),
            0 <= multiplier <= 2 * RATE_SCALE,
        ensures
            final(self).age_factors@.len() == old(self).age_factors@.len(),
            forall|i: int| 0 <= i < old(self).age_factors@.len() ==> {
                let scaled = scale_down(old(self).age_factors@[i] as int, multiplier as int);
                #[trigger] final(self).age_factors@[i] == if scaled > 2 * RATE_SCALE {
                    2 * RATE_SCALE as int
                } else {
                    scaled
                }
            },
            final(self).base_rates == old(self).base_rates,
            final(self).improvement_rates == old(self).improvement_rates,
            final(self).conversion_method == old(self).conversion_method,
            final(self).table_base_year == old(self).table_base_year,
            final(self).projection_year == old(self).projection_year,
            final(self).wf(),
    {
        let n = self.age_factors.len();
        let mut i: usize = 0;
        while i < n
            invariant
                0 <= i <= n,
                n == self.age_factors@.len(),
                0 <= multiplier <= 2 * RATE_SCALE,
                self.age_factors@.len() == old(self).age_factors@.len(),
                forall|j: int| 0 <= j < n ==> 0 <= #[trigger] old(self).age_factors@[j] <= 2
                    * RATE_SCALE,
                forall|j: int| i <= j < n ==> #[trigger] self.age_factors@[j] == old(
                    self,
                ).age_factors@[j],
                forall|j: int| 0 <= j < i ==> {
                    let scaled = scale_down(old(self).age_factors@[j] as int, multiplier as int);
                    #[trigger] self.age_factors@[j] == if scaled > 2 * RATE_SCALE {
                        2 * RATE_SCALE as int
                    } else {
                        scaled
                    }
                },
                self.base_rates == old(self).base_rates,
                self.improvement_rates == old(self).improvement_rates,
                self.conversion_method == old(self).conversion_method,
                self.table_base_year == old(self).table_base_year,
                self.projection_year == old(self).projection_year,
            decreases n - i,
        {
            let f = self.age_factors[i];
            let scaled = crate::fixed::mul_money_rate(f, multiplier);
            let capped = if scaled > 2 * RATE_SCALE {
                2 * RATE_SCALE
            } else {
                scaled
            };
            self.age_factors.set(i, capped);
            i = i + 1;
        }
    }
}

/// The standard base annual mortality rates by age, (female, male), scaled.
pub open spec fn spec_standard_base_rates() -> Seq<(i64, i64)> {
    seq![
        (1801000i64, 1783000i64), (450000i64, 446000i64), (287000i64, 306000i64),
        (199000i64, 254000i64), (152000i64, 193000i64), (139000i64, 186000i64),
        (130000i64, 184000i64), (122000i64, 177000i64), (105000i64, 159000i64),
        (98000i64, 143000i64), (94000i64, 126000i64), (96000i64, 123000i64),
        (105000i64, 147000i64), (120000i64, 188000i64), (146000i64, 236000i64),
        (174000i64, 282000i64), (199000i64, 325000i64), (220000i64, 364000i64),
        (234000i64, 399000i64), (245000i64, 430000i64), (253000i64, 459000i64),
        (260000i64, 492000i64), (266000i64, 526000i64), (272000i64, 569000i64),
        (275000i64, 616000i64), (277000i64, 669000i64), (284000i64, 728000i64),
        (290000i64, 764000i64), (300000i64, 789000i64), (313000i64, 808000i64),
        (333000i64, 824000i64), (357000i64, 834000i64), (375000i64, 838000i64),
        (390000i64, 828000i64), (405000i64, 808000i64), (424000i64, 789000i64),
        (447000i64, 783000i64), (476000i64, 800000i64), (514000i64, 837000i64),
        (560000i64, 889000i64), (613000i64, 955000i64), (667000i64, 1029000i64),
        (723000i64, 1110000i64), (774000i64, 1188000i64), (823000i64, 1268000i64),
        (866000i64, 1355000i64), (917000i64, 1464000i64), (983000i64, 1615000i64),
        (1072000i64, 1808000i64), (1168000i64, 2032000i64), (1290000i64, 2285000i64),
        (1453000i64, 2557000i64), (1622000i64, 2828000i64), (1792000i64, 3088000i64),
        (1972000i64, 3345000i64), (2166000i64, 3616000i64), (2393000i64, 3922000i64),
        (2666000i64, 4272000i64), (3000000i64, 4681000i64), (3393000i64, 5146000i64),
        (3844000i64, 5662000i64), (4352000i64, 6237000i64), (4899000i64, 6854000i64),
        (5482000i64, 7510000i64), (6118000i64, 8220000i64), (6829000i64, 9007000i64),
        (7279000i64, 9497000i64), (7821000i64, 10085000i64), (8475000i64, 10787000i64),
        (9234000i64, 11625000i64), (10083000i64, 12619000i64), (11011000i64, 13798000i64),
        (12030000i64, 15195000i64), (13154000i64, 16834000i64), (14415000i64, 18733000i64),
        (15869000i64, 20905000i64), (17555000i64, 23367000i64), (19500000i64, 26155000i64),
        (21758000i64, 29306000i64), (24412000i64, 32858000i64), (27579000i64, 36927000i64),
        (31501000i64, 41703000i64), (36122000i64, 46957000i64), (41477000i64, 52713000i64),
        (47589000i64, 59148000i64), (54441000i64, 66505000i64), (61972000i64, 75015000i64),
        (70155000i64, 84823000i64), (78963000i64, 95987000i64), (88336000i64, 108482000i64),
        (98197000i64, 122214000i64), (108323000i64, 136799000i64), (119188000i64, 152409000i64),
        (131334000i64, 169078000i64), (145521000i64, 186882000i64), (162722000i64, 205844000i64),
        (182120000i64, 219247000i64), (199661000i64, 238612000i64), (217946000i64, 258341000i64),
        (236834000i64, 278219000i64), (256357000i64, 298452000i64), (283802000i64, 323610000i64),
        (304716000i64, 344191000i64), (325819000i64, 364633000i64), (346936000i64, 384783000i64),
        (367898000i64, 400000000i64), (387607000i64, 400000000i64), (400000000i64, 400000000i64),
        (400000000i64, 400000000i64), (400000000i64, 400000000i64), (400000000i64, 400000000i64),
        (400000000i64, 400000000i64), (400000000i64, 400000000i64), (400000000i64, 400000000i64),
        (400000000i64, 400000000i64), (400000000i64, 400000000i64), (400000000i64, 400000000i64),
        (400000000i64, 400000000i64), (400000000i64, 400000000i64), (400000000i64, 400000000i64),
        (400000000i64, 400000000i64),
    ]
}

/// The default improvement-rate schedule by age, (female, male), scaled.
pub open spec fn spec_default_improvement_rates() -> Seq<(i64, i64)> {
    seq![
        (10000000i64, 10000000i64), (10000000i64, 10000000i64), (10000000i64, 10000000i64),
        (10000000i64, 10000000i64), (10000000i64, 10000000i64), (10000000i64, 10000000i64),
        (10000000i64, 10000000i64), (10000000i64, 10000000i64), (10000000i64, 10000000i64),
        (10000000i64, 10000000i64), (10000000i64, 10000000i64), (10000000i64, 10000000i64),
        (10000000i64, 10000000i64), (10000000i64, 10000000i64), (10000000i64, 10000000i64),
        (10000000i64, 10000000i64), (10000000i64, 10000000i64), (10000000i64, 10000000i64),
        (10000000i64, 10000000i64), (10000000i64, 10000000i64), (10000000i64, 10000000i64),
        (10000000i64, 10000000i64), (10000000i64, 10000000i64), (10000000i64, 10000000i64),
        (10000000i64, 10000000i64), (10000000i64, 10000000i64), (10000000i64, 10000000i64),
        (10000000i64, 10000000i64), (10000000i64, 10000000i64), (10000000i64, 10000000i64),
        (10000000i64, 10000000i64), (10000000i64, 10000000i64), (10000000i64, 10000000i64),
        (10000000i64, 10000000i64), (10000000i64, 10000000i64), (10000000i64, 10000000i64),
        (10000000i64, 10000000i64), (10000000i64, 10000000i64), (10000000i64, 10000000i64),
        (10000000i64, 10000000i64), (10000000i64, 10000000i64), (10000000i64, 10000000i64),
        (10000000i64, 10000000i64), (10000000i64, 10000000i64), (10000000i64, 10000000i64),
        (10000000i64, 10000000i64), (10000000i64, 10000000i64), (10000000i64, 10000000i64),
        (10000000i64, 10000000i64), (10000000i64, 10000000i64), (10000000i64, 10000000i64),
        (10000000i64, 11000000i64), (10000000i64, 11000000i64), (12000000i64, 12000000i64),
        (12000000i64, 12000000i64), (12000000i64, 13000000i64), (12000000i64, 13000000i64),
        (12000000i64, 14000000i64), (12000000i64, 14000000i64), (13000000i64, 15000000i64),
        (13000000i64, 15000000i64), (13000000i64, 15000000i64), (13000000i64, 15000000i64),
        (13000000i64, 15000000i64), (13000000i64, 15000000i64), (13000000i64, 15000000i64),
        (13000000i64, 15000000i64), (13000000i64, 15000000i64), (13000000i64, 15000000i64),
        (13000000i64, 15000000i64), (13000000i64, 15000000i64), (13000000i64, 15000000i64),
        (13000000i64, 15000000i64), (13000000i64, 15000000i64), (13000000i64, 15000000i64),
        (13000000i64, 15000000i64), (13000000i64, 15000000i64), (13000000i64, 15000000i64),
        (13000000i64, 15000000i64), (13000000i64, 15000000i64), (13000000i64, 15000000i64),
        (12000000i64, 14000000i64), (12000000i64, 13000000i64), (11000000i64, 13000000i64),
        (10000000i64, 12000000i64), (10000000i64, 11000000i64), (9000000i64, 10000000i64),
        (8000000i64, 9000000i64), (7000000i64, 9000000i64), (7000000i64, 8000000i64),
        (6000000i64, 7000000i64), (6000000i64, 7000000i64), (5000000i64, 6000000i64),
        (5000000i64, 5000000i64), (4000000i64, 5000000i64), (4000000i64, 4000000i64),
        (4000000i64, 4000000i64), (3000000i64, 3000000i64), (3000000i64, 3000000i64),
        (2000000i64, 2000000i64), (2000000i64, 2000000i64), (2000000i64, 2000000i64),
        (1000000i64, 1000000i64), (1000000i64, 1000000i64), (0i64, 0i64),
        (0i64, 0i64), (0i64, 0i64), (0i64, 0i64),
        (0i64, 0i64), (0i64, 0i64), (0i64, 0i64),
        (0i64, 0i64), (0i64, 0i64), (0i64, 0i64),
        (0i64, 0i64), (0i64, 0i64), (0i64, 0i64),
        (0i64, 0i64), (0i64, 0i64), (0i64, 0i64),
        (0i64, 0i64),
    ]
}

/// Build the standard base rate table.
pub fn standard_base_rates() -> (r: Vec<(i64, i64)>)
    ensures
        r@ == spec_standard_base_rates(),
        r@.len() == 121,
        forall|i: int| 0 <= i < 121 ==> {
            &&& 0 <= (#[trigger] r@[i]).0 <= RATE_SCALE
            &&& 0 <= r@[i].1 <= RATE_SCALE
        },
        r@[77] == (19_500_000i64, 26_155_000i64),
{
    let rates: Vec<(i64, i64)> = vec![
        (1801000, 1783000), (450000, 446000), (287000, 306000), (199000, 254000),
        (152000, 193000), (139000, 186000), (130000, 184000), (122000, 177000),
        (105000, 159000), (98000, 143000), (94000, 126000), (96000, 123000),
        (105000, 147000), (120000, 188000), (146000, 236000), (174000, 282000),
        (199000, 325000), (220000, 364000), (234000, 399000), (245000, 430000),
        (253000, 459000), (260000, 492000), (266000, 526000), (272000, 569000),
        (275000, 616000), (277000, 669000), (284000, 728000), (290000, 764000),
        (300000, 789000), (313000, 808000), (333000, 824000), (357000, 834000),
        (375000, 838000), (390000, 828000), (405000, 808000), (424000, 789000),
        (447000, 783000), (476000, 800000), (514000, 837000), (560000, 889000),
        (613000, 955000), (667000, 1029000), (723000, 1110000), (774000, 1188000),
        (823000, 1268000), (866000, 1355000), (917000, 1464000), (983000, 1615000),
        (1072000, 1808000), (1168000, 2032000), (1290000, 2285000), (1453000, 2557000),
        (1622000, 2828000), (1792000, 3088000), (1972000, 3345000), (2166000, 3616000),
        (2393000, 3922000), (2666000, 4272000), (3000000, 4681000), (3393000, 5146000),
        (3844000, 5662000), (4352000, 6237000), (4899000, 6854000), (5482000, 7510000),
        (6118000, 8220000), (6829000, 9007000), (7279000, 9497000), (7821000, 10085000),
        (8475000, 10787000), (9234000, 11625000), (10083000, 12619000), (11011000, 13798000),
        (12030000, 15195000), (13154000, 16834000), (14415000, 18733000), (15869000, 20905000),
        (17555000, 23367000), (19500000, 26155000), (21758000, 29306000), (24412000, 32858000),
        (27579000, 36927000), (31501000, 41703000), (36122000, 46957000), (41477000, 52713000),
        (47589000, 59148000), (54441000, 66505000), (61972000, 75015000), (70155000, 84823000),
        (78963000, 95987000), (88336000, 108482000), (98197000, 122214000), (108323000, 136799000),
        (119188000, 152409000), (131334000, 169078000), (145521000, 186882000), (162722000, 205844000),
        (182120000, 219247000), (199661000, 238612000), (217946000, 258341000), (236834000, 278219000),
        (256357000, 298452000), (283802000, 323610000), (304716000, 344191000), (325819000, 364633000),
        (346936000, 384783000), (367898000, 400000000), (387607000, 400000000), (400000000, 400000000),
        (400000000, 400000000), (400000000, 400000000), (400000000, 400000000), (400000000, 400000000),
        (400000000, 400000000), (400000000, 400000000), (400000000, 400000000), (400000000, 400000000),
        (400000000, 400000000), (400000000, 400000000), (400000000, 400000000), (400000000, 400000000),
        (400000000, 400000000),
    ];
    proof {
        assert(rates@ =~= spec_standard_base_rates());
    }
    rates
}

/// The default improvement-rate schedule by age, (female, male), scaled: about
/// 1% at young ages, peaking near 1.3-1.5% in the fifties through seventies,
/// declining to nothing past age 103.
pub fn default_improvement_rates() -> (r: Vec<(i64, i64)>)
    ensures
        r@ == spec_default_improvement_rates(),
        r@.len() == 121,
        forall|i: int| 0 <= i < 121 ==> {
            &&& 0 <= (#[trigger] r@[i]).0 <= RATE_SCALE
            &&& 0 <= r@[i].1 <= RATE_SCALE
        },
        r@[77] == (13_000_000i64, 15_000_000i64),
{
    let rates: Vec<(i64, i64)> = vec![
        (10000000, 10000000), (10000000, 10000000), (10000000, 10000000), (10000000, 10000000),
        (10000000, 10000000), (10000000, 10000000), (10000000, 10000000), (10000000, 10000000),
        (10000000, 10000000), (10000000, 10000000), (10000000, 10000000), (10000000, 10000000),
        (10000000, 10000000), (10000000, 10000000), (10000000, 10000000), (10000000, 10000000),
        (10000000, 10000000), (10000000, 10000000), (10000000, 10000000), (10000000, 10000000),
        (10000000, 10000000), (10000000, 10000000), (10000000, 10000000), (10000000, 10000000),
        (10000000, 10000000), (10000000, 10000000), (10000000, 10000000), (10000000, 10000000),
        (10000000, 10000000), (10000000, 10000000), (10000000, 10000000), (10000000, 10000000),
        (10000000, 10000000), (10000000, 10000000), (10000000, 10000000), (10000000, 10000000),
        (10000000, 10000000), (10000000, 10000000), (10000000, 10000000), (10000000, 10000000),
        (10000000, 10000000), (10000000, 10000000), (10000000, 10000000), (10000000, 10000000),
        (10000000, 10000000), (10000000, 10000000), (10000000, 10000000), (10000000, 10000000),
        (10000000, 10000000), (10000000, 10000000), (10000000, 10000000), (10000000, 11000000),
        (10000000, 11000000), (12000000, 12000000), (12000000, 12000000), (12000000, 13000000),
        (12000000, 13000000), (12000000, 14000000), (12000000, 14000000), (13000000, 15000000),
        (13000000, 15000000), (13000000, 15000000), (13000000, 15000000), (13000000, 15000000),
        (13000000, 15000000), (13000000, 15000000), (13000000, 15000000), (13000000, 15000000),
        (13000000, 15000000), (13000000, 15000000), (13000000, 15000000), (13000000, 15000000),
        (13000000, 15000000), (13000000, 15000000), (13000000, 15000000), (13000000, 15000000),
        (13000000, 15000000), (13000000, 15000000), (13000000, 15000000), (13000000, 15000000),
        (13000000, 15000000), (12000000, 14000000), (12000000, 13000000), (11000000, 13000000),
        (10000000, 12000000), (10000000, 11000000), (9000000, 10000000), (8000000, 9000000),
        (7000000, 9000000), (7000000, 8000000), (6000000, 7000000), (6000000, 7000000),
        (5000000, 6000000), (5000000, 5000000), (4000000, 5000000), (4000000, 4000000),
        (4000000, 4000000), (3000000, 3000000), (3000000, 3000000), (2000000, 2000000),
        (2000000, 2000000), (2000000, 2000000), (1000000, 1000000), (1000000, 1000000),
        (0, 0), (0, 0), (0, 0), (0, 0),
        (0, 0), (0, 0), (0, 0), (0, 0),
        (0, 0), (0, 0), (0, 0), (0, 0),
        (0, 0), (0, 0), (0, 0), (0, 0),
        (0, 0),
    ];
    proof {
        assert(rates@ =~= spec_default_improvement_rates());
    }
    rates
}

} // verus!
