//! Policy cell data: enumerations, the policy record, and the timing rules
//! (policy year, month in policy year, attained age) that every component
//! derives the same way.

use vstd::prelude::*;
use crate::fixed::{RATE_SCALE, MONEY_CAP};

verus! {

/// Policy year sentinel meaning the rider income never activates.
pub fn default_glwb_start_year() -> (r: u32)
    ensures
        r == 99,
{
    99
}

/// Qualified status of the policy.
#[derive(Debug, Clone, Copy, PartialEq, Eq, Structural)]
pub enum QualStatus {
    /// Qualified (IRA and similar), subject to required minimum distributions.
    Q,
    /// Non-qualified.
    N,
}

impl QualStatus {
    pub fn is_qualified(&self) -> (r: bool)
        ensures
            r == (*self == QualStatus::Q),
    {
        match self {
            QualStatus::Q => true,
            QualStatus::N => false,
        }
    }
}

/// Gender of the policyholder.
#[derive(Debug, Clone, Copy, PartialEq, Eq, Structural)]
pub enum Gender {
    Male,
    Female,
}

/// Crediting strategy for the annuity.
#[derive(Debug, Clone, Copy, PartialEq, Eq, Structural)]
pub enum CreditingStrategy {
    /// Indexed crediting.
    Indexed,
    /// Fixed rate crediting.
    Fixed,
}

/// Rollup type for the benefit base.
#[derive(Debug, Clone, Copy, PartialEq, Eq, Structural)]
pub enum RollupType {
    /// Simple interest rollup.
    Simple,
    /// Compound interest rollup.
    Compound,
}

/// Benefit base bucket for lapse model segmentation.
#[derive(Debug, Clone, Copy, PartialEq, Eq, Structural)]
pub enum BenefitBaseBucket {
    /// [0, 50000)
    Under50k,
    /// [50000, 100000)
    From50kTo100k,
    /// [100000, 200000)
    From100kTo200k,
    /// [200000, 500000)
    From200kTo500k,
    /// [500000, Inf)
    Over500k,
}

/// Bucket that a per-life benefit base (in cents) falls in.
pub open spec fn spec_bucket_of(amount_cents: int) -> BenefitBaseBucket {
    if amount_cents < 5_000_000 {
        BenefitBaseBucket::Under50k
    } else if amount_cents < 10_000_000 {
        BenefitBaseBucket::From50kTo100k
    } else if amount_cents < 20_000_000 {
        BenefitBaseBucket::From100kTo200k
    } else if amount_cents < 50_000_000 {
        BenefitBaseBucket::From200kTo500k
    } else {
        BenefitBaseBucket::Over500k
    }
}

impl BenefitBaseBucket {
    /// Determine the bucket from a benefit base amount in cents.
    pub fn from_amount(amount_cents: i64) -> (r: Self)
        ensures
            r == spec_bucket_of(amount_cents as int),
    {
        if amount_cents < 5_000_000 {
            BenefitBaseBucket::Under50k
        } else if amount_cents < 10_000_000 {
            BenefitBaseBucket::From50kTo100k
        } else if amount_cents < 20_000_000 {
            BenefitBaseBucket::From100kTo200k
        } else if amount_cents < 50_000_000 {
            BenefitBaseBucket::From200kTo500k
        } else {
            BenefitBaseBucket::Over500k
        }
    }

    /// String form of the bucket range in whole dollars.
    pub fn as_str(&self) -> (r: &'static str)
        ensures
            *self == BenefitBaseBucket::Under50k ==> r@ == "[0, 50000)"@,
            *self == BenefitBaseBucket::From50kTo100k ==> r@ == "[50000, 100000)"@,
            *self == BenefitBaseBucket::From100kTo200k ==> r@ == "[100000, 200000)"@,
            *self == BenefitBaseBucket::From200kTo500k ==> r@ == "[200000, 500000)"@,
            *self == BenefitBaseBucket::Over500k ==> r@ == "[500000, Inf)"@,
    {
        match self {
            BenefitBaseBucket::Under50k => "[0, 50000)",
            BenefitBaseBucket::From50kTo100k => "[50000, 100000)",
            BenefitBaseBucket::From100kTo200k => "[100000, 200000)",
            BenefitBaseBucket::From200kTo500k => "[200000, 500000)",
            BenefitBaseBucket::Over500k => "[500000, Inf)",
        }
    }
}

/// Policy year that a projection month falls in, for a policy already
/// `duration` months old at projection start.  Saturates to year 1 at
/// duration 0 so that `(0, 0)` is still well defined.
pub open spec fn spec_policy_year(duration: int, projection_month: int) -> int {
    let total = duration + projection_month;
    if total <= 0 {
        1
    } else {
        (total - 1) / 12 + 1
    }
}

/// Month within the policy year (1..=12) for a given projection month.
pub open spec fn spec_month_in_policy_year(duration: int, projection_month: int) -> int {
    let total = duration + projection_month;
    if total <= 0 {
        1
    } else {
        (total - 1) % 12 + 1
    }
}

/// Attained age: issue age plus completed policy years, capped at the top of
/// the mortality table's index range.
pub open spec fn spec_attained_age(issue_age: int, duration: int, projection_month: int) -> int {
    let a = issue_age + spec_policy_year(duration, projection_month) - 1;
    if a > 255 {
        255
    } else {
        a
    }
}

/// The policy year never decreases as the projection month advances.
pub proof fn lemma_policy_year_monotonic(duration: int, m1: int, m2: int)
    requires
        0 <= duration,
        1 <= m1 <= m2,
    ensures
        spec_policy_year(duration, m1) <= spec_policy_year(duration, m2),
{
    vstd::arithmetic::div_mod::lemma_div_is_ordered(
        duration + m1 - 1,
        duration + m2 - 1,
        12,
    );
}

/// From one projection month to the next the policy year moves by at most one.
pub proof fn lemma_policy_year_step(duration: int, m: int)
    requires
        0 <= duration,
        1 <= m,
    ensures
        spec_policy_year(duration, m) <= spec_policy_year(duration, m + 1) <= spec_policy_year(
            duration,
            m,
        ) + 1,
{
    let t = duration + m;
    lemma_policy_year_monotonic(duration, m, m + 1);
    vstd::arithmetic::div_mod::lemma_div_plus_one(t - 1, 12);
    vstd::arithmetic::div_mod::lemma_div_is_ordered(t, t - 1 + 12, 12);
}

/// Per-life benefit base in cents (total benefit base over the fractional
/// lives count), saturating at `i64::MAX`; a zero lives count leaves the
/// aggregate amount as is.
pub open spec fn spec_per_life_bb(bb_cents: int, pols: int) -> int {
    if pols > 0 {
        let q = (bb_cents * (RATE_SCALE as int)) / pols;
        if q > i64::MAX as int {
            i64::MAX as int
        } else {
            q
        }
    } else {
        bb_cents
    }
}

/// A single policy record from the pricing inforce.
///
/// Money fields are in cents; the lives count and all rate fields are scaled
/// by `RATE_SCALE` (1.0 == `RATE_SCALE`).
#[derive(Debug, Clone, Copy)]
pub struct Policy {
    /// Unique policy identifier.
    pub policy_id: u32,
    /// Qualified status.
    pub qual_status: QualStatus,
    /// Issue age of the policyholder.
    pub issue_age: u8,
    /// Gender of the policyholder.
    pub gender: Gender,
    /// Initial benefit base at policy inception, in cents.
    pub initial_benefit_base: i64,
    /// Initial number of policies, scaled (fractional for weighted cohorts).
    pub initial_pols: i64,
    /// Initial premium amount, in cents.
    pub initial_premium: i64,
    /// Benefit base bucket for segmentation.
    pub benefit_base_bucket: BenefitBaseBucket,
    /// Weight within the cohort, scaled.
    pub percentage: i64,
    /// Crediting strategy.
    pub crediting_strategy: CreditingStrategy,
    /// Surrender charge period in years.
    pub sc_period: u8,
    /// Valuation rate for discounting, scaled.
    pub val_rate: i64,
    /// Minimum guaranteed interest rate, scaled.
    pub mgir: i64,
    /// Premium bonus percentage at inception, scaled.
    pub bonus: i64,
    /// Rollup type.
    pub rollup_type: RollupType,
    /// Policy duration in months at projection start (seasoned policies).
    pub duration_months: u32,
    /// Whether rider income is already activated at projection start.
    pub income_activated: bool,
    /// Policy year in which rider income activates (99 = never).
    pub glwb_start_year: u32,
    /// Account value at projection start for seasoned policies, in cents.
    pub current_av: Option<i64>,
    /// Benefit base at projection start for seasoned policies, in cents.
    pub current_benefit_base: Option<i64>,
}

impl Policy {
    /// Every money amount is a non-negative value under the kernel's cap, the
    /// lives count is non-negative and the duration leaves room to project.
    pub open spec fn wf(self) -> bool {
        &&& 0 <= self.initial_benefit_base <= MONEY_CAP
        &&& 0 <= self.initial_pols <= MONEY_CAP
        &&& 0 <= self.initial_premium <= MONEY_CAP
        &&& (self.current_av matches Some(av) ==> 0 <= av <= MONEY_CAP)
        &&& (self.current_benefit_base matches Some(bb) ==> 0 <= bb <= MONEY_CAP)
        &&& 0 <= self.val_rate <= RATE_SCALE
        &&& self.duration_months <= 1_000_000
    }

    /// Create a policy whose rider income never activates.
    pub fn new(
        policy_id: u32,
        qual_status: QualStatus,
        issue_age: u8,
        gender: Gender,
        initial_benefit_base: i64,
        initial_pols: i64,
        initial_premium: i64,
        crediting_strategy: CreditingStrategy,
        sc_period: u8,
        val_rate: i64,
        mgir: i64,
        bonus: i64,
        rollup_type: RollupType,
    ) -> (r: Policy)
        requires
            0 <= initial_benefit_base <= MONEY_CAP,
            0 <= initial_pols,
        ensures
            r.policy_id == policy_id,
            r.issue_age == issue_age,
            r.glwb_start_year == 99,
            r.duration_months == 0,
            !r.income_activated,
            r.benefit_base_bucket == spec_bucket_of(
                spec_per_life_bb(initial_benefit_base as int, initial_pols as int),
            ),
            r.initial_benefit_base == initial_benefit_base,
            r.initial_pols == initial_pols,
            r.initial_premium == initial_premium,
            r.current_av is None,
            r.current_benefit_base is None,
            r.percentage == RATE_SCALE,
            r.qual_status == qual_status,
            r.gender == gender,
            r.crediting_strategy == crediting_strategy,
            r.sc_period == sc_period,
            r.val_rate == val_rate,
            r.mgir == mgir,
            r.bonus == bonus,
            r.rollup_type == rollup_type,
    {
        Policy::with_glwb_start(
            policy_id, qual_status, issue_age, gender, initial_benefit_base,
            initial_pols, initial_premium, crediting_strategy, sc_period,
            val_rate, mgir, bonus, rollup_type, 99,
        )
    }

    /// Create a policy with the rider activation year given.  The bucket is
    /// determined from the per-life benefit base, not the aggregate.
    pub fn with_glwb_start(
        policy_id: u32,
        qual_status: QualStatus,
        issue_age: u8,
        gender: Gender,
        initial_benefit_base: i64,
        initial_pols: i64,
        initial_premium: i64,
        crediting_strategy: CreditingStrategy,
        sc_period: u8,
        val_rate: i64,
        mgir: i64,
        bonus: i64,
        rollup_type: RollupType,
        glwb_start_year: u32,
    ) -> (r: Policy)
        requires
            0 <= initial_benefit_base <= MONEY_CAP,
            0 <= initial_pols,
        ensures
            r.policy_id == policy_id,
            r.issue_age == issue_age,
            r.glwb_start_year == glwb_start_year,
            r.duration_months == 0,
            !r.income_activated,
            r.benefit_base_bucket == spec_bucket_of(
                spec_per_life_bb(initial_benefit_base as int, initial_pols as int),
            ),
            r.initial_benefit_base == initial_benefit_base,
            r.initial_pols == initial_pols,
            r.initial_premium == initial_premium,
            r.current_av is None,
            r.current_benefit_base is None,
            r.percentage == RATE_SCALE,
            r.qual_status == qual_status,
            r.gender == gender,
            r.crediting_strategy == crediting_strategy,
            r.sc_period == sc_period,
            r.val_rate == val_rate,
            r.mgir == mgir,
            r.bonus == bonus,
            r.rollup_type == rollup_type,
    {
        let bb_per_life: i64 = if initial_pols > 0 {
            let q: i128 = ((initial_benefit_base as i128) * (RATE_SCALE as i128))
                / (initial_pols as i128);
            proof {
                vstd::arithmetic::div_mod::lemma_div_pos_is_pos(
                    initial_benefit_base as int * RATE_SCALE as int,
                    initial_pols as int,
                );
            }
            if q > i64::MAX as i128 {
                i64::MAX
            } else {
                q as i64
            }
        } else {
            initial_benefit_base
        };
        let benefit_base_bucket = BenefitBaseBucket::from_amount(bb_per_life);

        Policy {
            policy_id,
            qual_status,
            issue_age,
            gender,
            initial_benefit_base,
            initial_pols,
            initial_premium,
            benefit_base_bucket,
            percentage: RATE_SCALE,
            crediting_strategy,
            sc_period,
            val_rate,
            mgir,
            bonus,
            rollup_type,
            duration_months: 0,
            income_activated: false,
            glwb_start_year,
            current_av: None,
            current_benefit_base: None,
        }
    }

    /// Account value the projection starts from, in cents.
    pub fn starting_av(&self) -> (r: i64)
        ensures
            r == if self.current_av is Some { self.current_av->0 } else { self.initial_premium },
    {
        match self.current_av {
            Some(av) => av,
            None => self.initial_premium,
        }
    }

    /// Benefit base the projection starts from, in cents.
    pub fn starting_benefit_base(&self) -> (r: i64)
        ensures
            r == if self.current_benefit_base is Some {
                self.current_benefit_base->0
            } else {
                self.initial_benefit_base
            },
    {
        match self.current_benefit_base {
            Some(bb) => bb,
            None => self.initial_benefit_base,
        }
    }

    /// Policy year at a given projection month.
    pub fn policy_year(&self, projection_month: u32) -> (r: u32)
        ensures
            r == spec_policy_year(self.duration_months as int, projection_month as int),
            1 <= r,
            (self.duration_months <= 1_000_000 && projection_month <= 1_000_000) ==> r
                <= 1_000_000,
    {
        let total: u64 = self.duration_months as u64 + projection_month as u64;
        if total == 0 {
            1
        } else {
            proof {
                vstd::arithmetic::div_mod::lemma_div_pos_is_pos(total as int - 1, 12);
                vstd::arithmetic::div_mod::lemma_div_is_ordered(
                    total as int - 1,
                    u64::MAX as int,
                    12,
                );
                if total <= 2_000_000 {
                    vstd::arithmetic::div_mod::lemma_div_is_ordered(
                        total as int - 1,
                        1_999_999,
                        12,
                    );
                }
            }
            (((total - 1) / 12) + 1) as u32
        }
    }

    /// Month within the policy year (1..=12) at a given projection month.
    pub fn month_in_policy_year(&self, projection_month: u32) -> (r: u32)
        ensures
            r == spec_month_in_policy_year(self.duration_months as int, projection_month as int),
            1 <= r <= 12,
    {
        let total: u64 = self.duration_months as u64 + projection_month as u64;
        if total == 0 {
            1
        } else {
            (((total - 1) % 12) + 1) as u32
        }
    }

    /// Attained age at a given projection month; the age increments at the
    /// start of each policy year.
    pub fn attained_age(&self, projection_month: u32) -> (r: u8)
        ensures
            r == spec_attained_age(
                self.issue_age as int,
                self.duration_months as int,
                projection_month as int,
            ),
    {
        let policy_year = self.policy_year(projection_month);
        proof {
            vstd::arithmetic::div_mod::lemma_div_is_ordered(
                self.duration_months as int + projection_month as int - 1,
                u64::MAX as int,
                12,
            );
        }
        let age: u64 = self.issue_age as u64 + (policy_year as u64 - 1);
        if age > 255 {
            255
        } else {
            age as u8
        }
    }

    /// Whether the policy is still in the surrender charge period.
    pub fn in_sc_period(&self, projection_month: u32) -> (r: bool)
        ensures
            r == (spec_policy_year(self.duration_months as int, projection_month as int)
                <= self.sc_period as int),
    {
        self.policy_year(projection_month) <= self.sc_period as u32
    }

    /// Whether rider income should be on at a given projection month: either it
    /// was already activated, or the activation year has been reached.
    pub fn should_activate_income(&self, projection_month: u32) -> (r: bool)
        ensures
            r == (self.income_activated
                || spec_policy_year(self.duration_months as int, projection_month as int)
                    >= self.glwb_start_year as int),
    {
        if self.income_activated {
            return true;
        }
        self.policy_year(projection_month) >= self.glwb_start_year
    }
}

} // verus!
