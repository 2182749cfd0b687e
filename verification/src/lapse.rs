//! Predictive lapse model.
//!
//! The model produces an annual lapse probability through a log link,
//! `p = min(1, exp(min(0, eta)))`, where the linear predictor `eta` combines a
//! tabulated per-year floor for the reference bucket, the bucket adjustment,
//! income-activation effects, and deviations of the clamped in-the-moneyness
//! from one.  The annual probability is spread over the months of the year by
//! a skew: uniform twelfths normally, front-loaded in the shock year.

use vstd::prelude::*;
use crate::fixed::{
    RATE_SCALE, EXP_ARG_MAX, scale_down_signed, mul_rate_signed, div_small, div_trunc, abs_i,
    spec_exp_neg, exp_neg, spec_monthly_from_annual, monthly_from_annual,
};
use crate::policy::BenefitBaseBucket;

verus! {

/// Bound on the magnitude of any single model coefficient or tabulated
/// predictor value (ten units).
pub const COEF_CAP: i64 = 10_000_000_000;

/// In-the-moneyness values are capped here (a thousand units), so that the
/// ratio of two money amounts always fits.
pub const ITM_CAP: i64 = 1_000_000_000_000;

/// In-the-moneyness: benefit base over account value, one unit when the
/// account is exhausted, capped at `ITM_CAP`.
pub open spec fn spec_itm(benefit_base: int, account_value: int) -> int {
    if account_value <= 0 {
        RATE_SCALE as int
    } else {
        let q = (benefit_base * RATE_SCALE) / account_value;
        if q > ITM_CAP {
            ITM_CAP as int
        } else {
            q
        }
    }
}

/// In-the-moneyness of a benefit base against an account value, both in cents.
pub fn calculate_itm_ness(benefit_base: i64, account_value: i64) -> (r: i64)
    requires
        0 <= benefit_base <= crate::fixed::MONEY_CAP,
    ensures
        r == spec_itm(benefit_base as int, account_value as int),
        0 <= r <= ITM_CAP,
{
    if account_value <= 0 {
        return RATE_SCALE;
    }
    let q: i128 = ((benefit_base as i128) * (RATE_SCALE as i128)) / (account_value as i128);
    proof {
        vstd::arithmetic::div_mod::lemma_div_pos_is_pos(
            benefit_base as int * RATE_SCALE as int,
            account_value as int,
        );
    }
    if q > ITM_CAP as i128 {
        ITM_CAP
    } else {
        q as i64
    }
}

/// Coefficients for the predictive lapse model.
#[derive(Debug, Clone, Copy)]
pub struct LapseCoefficients {
    /// In-the-moneyness effect for the clamped range [0.5, 1], scaled.
    pub itm_low: i64,
    /// In-the-moneyness effect for the clamped range [1, 2], scaled.
    pub itm_high: i64,
    /// Main income-started effect, scaled.
    pub income_main: i64,
    /// Income and low in-the-moneyness interaction, scaled.
    pub income_itm_low: i64,
}

impl LapseCoefficients {
    pub open spec fn wf(self) -> bool {
        &&& abs_i(self.itm_low as int) <= COEF_CAP
        &&& abs_i(self.itm_high as int) <= COEF_CAP
        &&& abs_i(self.income_main as int) <= COEF_CAP
        &&& abs_i(self.income_itm_low as int) <= COEF_CAP
    }

    /// The calibrated coefficients.
    pub fn standard() -> (r: Self)
        ensures
            r.wf(),
            r.itm_low == -3_161_844_470i64,
            r.itm_high == -1_157_172_097i64,
            r.income_main == -2_418_914_588i64,
            r.income_itm_low == 1_536_102_217i64,
    {
        LapseCoefficients {
            itm_low: -3_161_844_470,
            itm_high: -1_157_172_097,
            income_main: -2_418_914_588,
            income_itm_low: 1_536_102_217,
        }
    }
}

/// Bucket-specific coefficients.  Index 0 is the reference bucket under
/// 50,000 (all zeros in the calibration); index 3, 200,000 and over, is the
/// bucket the per-year predictor floors are computed for.
#[derive(Debug, Clone, Copy)]
pub struct BucketCoefficients {
    /// Main bucket effects, scaled.
    pub main: [i64; 4],
    /// Duration polynomial interaction, first order, scaled.
    pub poly1: [i64; 4],
    /// Duration polynomial interaction, second order, scaled.
    pub poly2: [i64; 4],
    /// Income interaction, scaled.
    pub income: [i64; 4],
    /// Shock year indicator interaction, scaled.
    pub shock_year: [i64; 4],
    /// Post-shock reciprocal interaction, first order, scaled.
    pub post_shock_poly1: [i64; 4],
    /// Post-shock reciprocal interaction, second order, scaled.
    pub post_shock_poly2: [i64; 4],
}

/// Every coefficient of a four-entry family is under the cap.
pub open spec fn coef_array_wf(a: [i64; 4]) -> bool {
    forall|i: int| 0 <= i < 4 ==> abs_i(a@[i] as int) <= COEF_CAP
}

/// Bucket index for coefficient lookup; the two top buckets share the
/// 200,000-and-over coefficients.
pub open spec fn spec_bucket_index(bucket: BenefitBaseBucket) -> int {
    match bucket {
        BenefitBaseBucket::Under50k => 0,
        BenefitBaseBucket::From50kTo100k => 1,
        BenefitBaseBucket::From100kTo200k => 2,
        BenefitBaseBucket::From200kTo500k => 3,
        BenefitBaseBucket::Over500k => 3,
    }
}

/// Duration term: policy year less the surrender charge period, capped above
/// at zero.
pub open spec fn spec_duration_term(policy_year: int, sc_period: int) -> int {
    if policy_year - sc_period < 0 {
        policy_year - sc_period
    } else {
        0
    }
}

/// Post-shock reciprocal denominator: the years past the charge period,
/// clamped to [1, 3]; zero while the period still runs (no post-shock term).
pub open spec fn spec_post_shock_denom(policy_year: int, sc_period: int) -> int {
    if policy_year > sc_period {
        if policy_year - sc_period > 3 {
            3
        } else {
            policy_year - sc_period
        }
    } else {
        0
    }
}

/// Full bucket terms for a bucket index: main effect, duration polynomial,
/// income interaction, shock indicator and post-shock reciprocal terms.
pub open spec fn spec_raw_bucket_terms(
    bc: BucketCoefficients,
    idx: int,
    policy_year: int,
    sc_period: int,
    income_ind: int,
) -> int {
    let d = spec_duration_term(policy_year, sc_period);
    let shock_ind: int = if policy_year == sc_period + 1 {
        1
    } else {
        0
    };
    let den = spec_post_shock_denom(policy_year, sc_period);
    bc.main@[idx] + bc.poly1@[idx] * d + bc.poly2@[idx] * d * d + bc.income@[idx] * income_ind
        + bc.shock_year@[idx] * shock_ind + (if den > 0 {
        div_trunc(bc.post_shock_poly1@[idx] as int, den) + div_trunc(
            bc.post_shock_poly2@[idx] as int,
            den * den,
        )
    } else {
        0
    })
}

/// Polynomial, shock and post-shock terms of the reference bucket (index 3),
/// the ones already folded into the per-year predictor floors.
pub open spec fn spec_base_poly_terms(
    bc: BucketCoefficients,
    policy_year: int,
    sc_period: int,
) -> int {
    let d = spec_duration_term(policy_year, sc_period);
    let shock_ind: int = if policy_year == sc_period + 1 {
        1
    } else {
        0
    };
    let den = spec_post_shock_denom(policy_year, sc_period);
    bc.poly1@[3] * d + bc.poly2@[3] * d * d + bc.shock_year@[3] * shock_ind + (if den > 0 {
        div_trunc(bc.post_shock_poly1@[3] as int, den) + div_trunc(
            bc.post_shock_poly2@[3] as int,
            den * den,
        )
    } else {
        0
    })
}

/// Adjustment moving the linear predictor from the reference bucket to the
/// target bucket.
///
/// With income off, the full bucket terms of both buckets are computed and
/// differenced.  With income on, the polynomial and shock interactions do not
/// apply: the target contributes its main and income effects, the reference
/// bucket's main effect is removed, and the reference bucket's polynomial
/// terms, already folded into the per-year floors, are subtracted explicitly.
pub open spec fn spec_bucket_adjustment(
    bc: BucketCoefficients,
    bucket: BenefitBaseBucket,
    policy_year: int,
    sc_period: int,
    income_activated: bool,
) -> int {
    let t = spec_bucket_index(bucket);
    if income_activated {
        (bc.main@[t] + bc.income@[t] - bc.main@[3]) - spec_base_poly_terms(
            bc,
            policy_year,
            sc_period,
        )
    } else {
        spec_raw_bucket_terms(bc, t, policy_year, sc_period, 0) - spec_raw_bucket_terms(
            bc,
            3,
            policy_year,
            sc_period,
            0,
        )
    }
}

impl BucketCoefficients {
    pub open spec fn wf(self) -> bool {
        &&& coef_array_wf(self.main)
        &&& coef_array_wf(self.poly1)
        &&& coef_array_wf(self.poly2)
        &&& coef_array_wf(self.income)
        &&& coef_array_wf(self.shock_year)
        &&& coef_array_wf(self.post_shock_poly1)
        &&& coef_array_wf(self.post_shock_poly2)
    }

    /// The calibrated bucket coefficients.
    pub fn standard() -> (r: Self)
        ensures
            r.wf(),
            r.main@ == seq![0i64, -157_400_823i64, -249_985_676i64, -338_729_473i64],
            r.poly1@ == seq![0i64, 68_253_228i64, 76_314_905i64, 57_758_421i64],
            r.poly2@ == seq![0i64, 2_915_475i64, 2_344_244i64, 1_561_981i64],
            r.income@ == seq![0i64, -92_572_346i64, -134_728_779i64, -65_657_612i64],
            r.shock_year@ == seq![0i64, 577_678_463i64, 469_928_826i64, 472_851_885i64],
            r.post_shock_poly1@ == seq![0i64, 544_650_716i64, 705_070_763i64, 757_199_050i64],
            r.post_shock_poly2@ == seq![0i64, -908_776_562i64, -826_641_854i64, -839_435_687i64],
    {
        let r = BucketCoefficients {
            main: [0, -157_400_823, -249_985_676, -338_729_473],
            poly1: [0, 68_253_228, 76_314_905, 57_758_421],
            poly2: [0, 2_915_475, 2_344_244, 1_561_981],
            income: [0, -92_572_346, -134_728_779, -65_657_612],
            shock_year: [0, 577_678_463, 469_928_826, 472_851_885],
            post_shock_poly1: [0, 544_650_716, 705_070_763, 757_199_050],
            post_shock_poly2: [0, -908_776_562, -826_641_854, -839_435_687],
        };
        proof {
            assert(r.main@ =~= seq![0i64, -157_400_823i64, -249_985_676i64, -338_729_473i64]);
            assert(r.poly1@ =~= seq![0i64, 68_253_228i64, 76_314_905i64, 57_758_421i64]);
            assert(r.poly2@ =~= seq![0i64, 2_915_475i64, 2_344_244i64, 1_561_981i64]);
            assert(r.income@ =~= seq![0i64, -92_572_346i64, -134_728_779i64, -65_657_612i64]);
            assert(r.shock_year@ =~= seq![
                0i64,
                577_678_463i64,
                469_928_826i64,
                472_851_885i64,
            ]);
            assert(r.post_shock_poly1@ =~= seq![
                0i64,
                544_650_716i64,
                705_070_763i64,
                757_199_050i64,
            ]);
            assert(r.post_shock_poly2@ =~= seq![
                0i64,
                -908_776_562i64,
                -826_641_854i64,
                -839_435_687i64,
            ]);
        }
        r
    }

    /// Bucket index for coefficient lookup.
    pub fn bucket_index(bucket: BenefitBaseBucket) -> (r: usize)
        ensures
            r == spec_bucket_index(bucket),
            r < 4,
    {
        match bucket {
            BenefitBaseBucket::Under50k => 0,
            BenefitBaseBucket::From50kTo100k => 1,
            BenefitBaseBucket::From100kTo200k => 2,
            BenefitBaseBucket::From200kTo500k => 3,
            BenefitBaseBucket::Over500k => 3,
        }
    }

    /// Full bucket terms for a bucket index.
    fn raw_bucket_terms(&self, idx: usize, policy_year: u32, sc_period: u32, income_ind: i64) -> (r:
        i64)
        requires
            self.wf(),
            idx < 4,
            sc_period <= 1000,
            1 <= policy_year <= 1_000_000,
            income_ind == 0 || income_ind == 1,
        ensures
            r == spec_raw_bucket_terms(
                *self,
                idx as int,
                policy_year as int,
                sc_period as int,
                income_ind as int,
            ),
            abs_i(r as int) <= bucket_terms_cap(),
    {
        let d: i64 = if policy_year < sc_period {
            (policy_year as i64) - (sc_period as i64)
        } else {
            0
        };
        proof {
            assert(-(COEF_CAP as int) * 1000 <= self.poly1@[idx as int] as int * d as int
                <= COEF_CAP as int * 1000) by (nonlinear_arith)
                requires
                    abs_i(self.poly1@[idx as int] as int) <= COEF_CAP,
                    -1000 <= d <= 0,
            ;
            assert(0 <= d as int * d as int <= 1_000_000) by (nonlinear_arith)
                requires
                    -1000 <= d <= 0,
            ;
        }
        let t1: i64 = self.poly1[idx] * d;
        let dd: i64 = d * d;
        proof {
            assert(-(COEF_CAP as int) * 1_000_000 <= self.poly2@[idx as int] as int * dd as int
                <= COEF_CAP as int * 1_000_000) by (nonlinear_arith)
                requires
                    abs_i(self.poly2@[idx as int] as int) <= COEF_CAP,
                    0 <= dd <= 1_000_000,
            ;
            assert(self.poly2@[idx as int] as int * d as int * d as int
                == self.poly2@[idx as int] as int * (d as int * d as int)) by (nonlinear_arith);
        }
        let t2: i64 = self.poly2[idx] * dd;
        let income_term: i64 = if income_ind == 1 {
            self.income[idx]
        } else {
            0
        };
        let shock_term: i64 = if policy_year == sc_period + 1 {
            self.shock_year[idx]
        } else {
            0
        };
        let post_shock: i64 = if policy_year > sc_period {
            let gap: u32 = policy_year - sc_period;
            let den: i64 = if gap > 3 {
                3
            } else {
                gap as i64
            };
            proof {
                assert(1 <= den as int * den as int <= 9) by (nonlinear_arith)
                    requires
                        1 <= den <= 3,
                ;
            }
            div_small(self.post_shock_poly1[idx], den) + div_small(
                self.post_shock_poly2[idx],
                den * den,
            )
        } else {
            0
        };
        self.main[idx] + t1 + t2 + income_term + shock_term + post_shock
    }

    /// Adjustment from the reference bucket to the target bucket.
    pub fn adjustment(
        &self,
        bucket: BenefitBaseBucket,
        policy_year: u32,
        sc_period: u32,
        income_activated: bool,
    ) -> (r: i64)
        requires
            self.wf(),
            sc_period <= 1000,
            1 <= policy_year <= 1_000_000,
        ensures
            r == spec_bucket_adjustment(
                *self,
                bucket,
                policy_year as int,
                sc_period as int,
                income_activated,
            ),
            abs_i(r as int) <= 3 * bucket_terms_cap(),
    {
        let target_idx = BucketCoefficients::bucket_index(bucket);
        if income_activated {
            let base_full = self.raw_bucket_terms(3, policy_year, sc_period, 0);
            let base_main = self.main[3];
            let base_poly_terms = base_full - base_main;
            let target_terms = self.main[target_idx] + self.income[target_idx];
            (target_terms - base_main) - base_poly_terms
        } else {
            let target_terms = self.raw_bucket_terms(target_idx, policy_year, sc_period, 0);
            let base_terms = self.raw_bucket_terms(3, policy_year, sc_period, 0);
            target_terms - base_terms
        }
    }
}

/// Bound on the magnitude of a full set of bucket terms.
pub open spec fn bucket_terms_cap() -> int {
    20 * COEF_CAP + COEF_CAP * 1000 + COEF_CAP * 1_000_000
}

/// Tabulated per-year linear-predictor floor: index 0 is policy year one; the
/// last entry holds for later years, zero in an empty table.
pub open spec fn spec_precalc(precalc: Seq<i64>, policy_year: int) -> int {
    if precalc.len() == 0 {
        0
    } else if policy_year <= 1 {
        precalc[0] as int
    } else if policy_year <= precalc.len() {
        precalc[policy_year - 1] as int
    } else {
        precalc[precalc.len() - 1] as int
    }
}

/// Base component of the linear predictor: the per-year floor, the two
/// in-the-moneyness coefficients at their intercept, the income effects when
/// activated, and the bucket adjustment.
pub open spec fn spec_base_component(
    m: LapseModel,
    policy_year: int,
    income_activated: bool,
    bucket: BenefitBaseBucket,
    sc_period: int,
) -> int {
    spec_precalc(m.precalc_by_year@, policy_year) + m.coefficients.itm_low
        + m.coefficients.itm_high + (if income_activated {
        m.coefficients.income_main + m.coefficients.income_itm_low as int
    } else {
        0
    }) + spec_bucket_adjustment(
        m.bucket_coefficients,
        bucket,
        policy_year,
        sc_period,
        income_activated,
    )
}

/// Clamp a scaled value into [lo, hi].
pub open spec fn spec_clamp(x: int, lo: int, hi: int) -> int {
    if x < lo {
        lo
    } else if x > hi {
        hi
    } else {
        x
    }
}

/// Dynamic component: the in-the-moneyness deviation terms, moving each
/// clamped coefficient from its intercept at one to the actual level.
pub open spec fn spec_dynamic_component(
    c: LapseCoefficients,
    itm: int,
    income_activated: bool,
) -> int {
    let dev_lo = spec_clamp(itm, RATE_SCALE as int / 2, RATE_SCALE as int) - RATE_SCALE;
    let dev_hi = spec_clamp(itm, RATE_SCALE as int, 2 * RATE_SCALE as int) - RATE_SCALE;
    scale_down_signed(c.itm_high as int, dev_hi) + scale_down_signed(c.itm_low as int, dev_lo) + (
    if income_activated {
        scale_down_signed(c.income_itm_low as int, dev_lo)
    } else {
        0
    })
}

/// Annual lapse probability from a linear predictor, through the log link
/// `min(1, exp(min(0, eta)))`; predictors below the exponential floor share
/// its zero probability.
pub open spec fn spec_annual_lapse_prob_of_eta(eta: int) -> int {
    spec_exp_neg(
        if eta >= 0 {
            0
        } else if -eta > EXP_ARG_MAX {
            EXP_ARG_MAX as int
        } else {
            -eta
        },
    )
}

/// Skew numerator over a denominator of 180: the share of the annual lapse
/// probability a month carries.  Uniform months carry 15/180 (one twelfth);
/// in the shock year the first three months carry 72, 54 and 36, and the
/// remaining nine carry 2 each.
pub open spec fn spec_skew_num(policy_year: int, month_in_policy_year: int, sc_period: int) -> int {
    if policy_year == sc_period + 1 {
        if month_in_policy_year == 1 {
            72
        } else if month_in_policy_year == 2 {
            54
        } else if month_in_policy_year == 3 {
            36
        } else {
            2
        }
    } else {
        15
    }
}

/// The skew numerators of the twelve months of any policy year.
pub open spec fn spec_skew_year_total(policy_year: int, sc_period: int) -> int {
    spec_skew_num(policy_year, 1, sc_period) + spec_skew_num(policy_year, 2, sc_period)
        + spec_skew_num(policy_year, 3, sc_period) + spec_skew_num(policy_year, 4, sc_period)
        + spec_skew_num(policy_year, 5, sc_period) + spec_skew_num(policy_year, 6, sc_period)
        + spec_skew_num(policy_year, 7, sc_period) + spec_skew_num(policy_year, 8, sc_period)
        + spec_skew_num(policy_year, 9, sc_period) + spec_skew_num(policy_year, 10, sc_period)
        + spec_skew_num(policy_year, 11, sc_period) + spec_skew_num(policy_year, 12, sc_period)
}

/// In every policy year, shock year included, the month skews sum to one full
/// year: 72 + 54 + 36 + 9 * 2 = 180 in the shock year, 12 * 15 = 180 otherwise.
pub proof fn lemma_skew_sums_to_one(policy_year: int, sc_period: int)
    ensures
        spec_skew_year_total(policy_year, sc_period) == 180,
{
}

/// Monthly lapse rate: zero in projection month one and when the account is
/// exhausted; otherwise the annual probability for the year and bucket spread
/// by the month's skew.
pub open spec fn spec_monthly_lapse_rate(
    m: LapseModel,
    projection_month: int,
    policy_year: int,
    month_in_policy_year: int,
    income_activated: bool,
    itm: int,
    sc_period: int,
    bucket: BenefitBaseBucket,
) -> int {
    if projection_month == 1 || itm <= 0 {
        0
    } else {
        let eta = spec_base_component(m, policy_year, income_activated, bucket, sc_period)
            + spec_dynamic_component(m.coefficients, itm, income_activated);
        spec_monthly_from_annual(
            spec_annual_lapse_prob_of_eta(eta),
            spec_skew_num(policy_year, month_in_policy_year, sc_period) as nat,
        )
    }
}

/// The tabulated per-year linear-predictor floors of the calibrated model,
/// for policy years one through thirteen and beyond.
pub open spec fn spec_default_precalc() -> Seq<i64> {
    seq![
        -1_425_793_726i64,
        -906_129_478i64,
        -380_586_419i64,
        150_835_452i64,
        329_461_261i64,
        513_965_881i64,
        704_349_312i64,
        900_611_554i64,
        1_102_752_608i64,
        1_310_772_472i64,
        2_936_673_387i64,
        2_083_416_198i64,
        2_106_642_317i64,
    ]
}

/// Lapse model with predictive factors.
#[derive(Debug, Clone)]
pub struct LapseModel {
    /// Model coefficients.
    pub coefficients: LapseCoefficients,
    /// Bucket-specific coefficients.
    pub bucket_coefficients: BucketCoefficients,
    /// Per-year linear-predictor floors for the reference 200,000-and-over
    /// bucket, excluding in-the-moneyness terms; index 0 is policy year one.
    pub precalc_by_year: Vec<i64>,
}

impl LapseModel {
    pub open spec fn wf(self) -> bool {
        &&& self.coefficients.wf()
        &&& self.bucket_coefficients.wf()
        &&& forall|i: int| 0 <= i < self.precalc_by_year@.len() ==> abs_i(
            #[trigger] self.precalc_by_year@[i] as int,
        ) <= COEF_CAP
        &&& self.precalc_by_year@.len() <= 1000
    }

    /// The calibrated model: standard coefficients and the tabulated per-year
    /// floors for policy years one through thirteen and beyond.
    pub fn default_predictive_model() -> (r: Self)
        ensures
            r.wf(),
            r.coefficients.itm_low == -3_161_844_470i64,
            r.coefficients.itm_high == -1_157_172_097i64,
            r.coefficients.income_main == -2_418_914_588i64,
            r.coefficients.income_itm_low == 1_536_102_217i64,
            r.bucket_coefficients.main@ == seq![
                0i64,
                -157_400_823i64,
                -249_985_676i64,
                -338_729_473i64,
            ],
            r.bucket_coefficients.poly1@ == seq![
                0i64,
                68_253_228i64,
                76_314_905i64,
                57_758_421i64,
            ],
            r.bucket_coefficients.poly2@ == seq![0i64, 2_915_475i64, 2_344_244i64, 1_561_981i64],
            r.bucket_coefficients.income@ == seq![
                0i64,
                -92_572_346i64,
                -134_728_779i64,
                -65_657_612i64,
            ],
            r.bucket_coefficients.shock_year@ == seq![
                0i64,
                577_678_463i64,
                469_928_826i64,
                472_851_885i64,
            ],
            r.bucket_coefficients.post_shock_poly1@ == seq![
                0i64,
                544_650_716i64,
                705_070_763i64,
                757_199_050i64,
            ],
            r.bucket_coefficients.post_shock_poly2@ == seq![
                0i64,
                -908_776_562i64,
                -826_641_854i64,
                -839_435_687i64,
            ],
            r.precalc_by_year@ == spec_default_precalc(),
            r.precalc_by_year@.len() == 13,
            r.precalc_by_year@[0] == -1_425_793_726i64,
            r.precalc_by_year@[10] == 2_936_673_387i64,
    {
        let precalc_by_year: Vec<i64> = vec![
            -1_425_793_726,
            -906_129_478,
            -380_586_419,
            150_835_452,
            329_461_261,
            513_965_881,
            704_349_312,
            900_611_554,
            1_102_752_608,
            1_310_772_472,
            2_936_673_387,
            2_083_416_198,
            2_106_642_317,
        ];
        proof {
            assert(precalc_by_year@ =~= spec_default_precalc());
        }
        LapseModel {
            coefficients: LapseCoefficients::standard(),
            bucket_coefficients: BucketCoefficients::standard(),
            precalc_by_year,
        }
    }

    /// Build a model from its parts, for calibrations loaded elsewhere.
    pub fn from_parts(
        coefficients: LapseCoefficients,
        bucket_coefficients: BucketCoefficients,
        precalc_by_year: Vec<i64>,
    ) -> (r: Self)
        requires
            coefficients.wf(),
            bucket_coefficients.wf(),
            forall|i: int| 0 <= i < precalc_by_year@.len() ==> abs_i(
                #[trigger] precalc_by_year@[i] as int,
            ) <= COEF_CAP,
            precalc_by_year@.len() <= 1000,
        ensures
            r.wf(),
            r.coefficients == coefficients,
            r.bucket_coefficients == bucket_coefficients,
            r.precalc_by_year@ == precalc_by_year@,
    {
        LapseModel { coefficients, bucket_coefficients, precalc_by_year }
    }

    /// Per-year linear-predictor floor, the last entry holding beyond the table.
    fn precalc_for_year(&self, policy_year: u32) -> (r: i64)
        requires
            self.wf(),
        ensures
            r == spec_precalc(self.precalc_by_year@, policy_year as int),
            abs_i(r as int) <= COEF_CAP,
    {
        let n = self.precalc_by_year.len();
        if n == 0 {
            0
        } else if policy_year <= 1 {
            self.precalc_by_year[0]
        } else if (policy_year as usize) <= n {
            self.precalc_by_year[(policy_year as usize) - 1]
        } else {
            self.precalc_by_year[n - 1]
        }
    }

    /// Base component of the linear predictor for a bucket.
    pub fn base_component_with_bucket(
        &self,
        policy_year: u32,
        income_activated: bool,
        bucket: BenefitBaseBucket,
        sc_period: u32,
    ) -> (r: i64)
        requires
            self.wf(),
            1 <= policy_year <= 1_000_000,
            sc_period <= 1000,
        ensures
            r == spec_base_component(
                *self,
                policy_year as int,
                income_activated,
                bucket,
                sc_period as int,
            ),
            abs_i(r as int) <= 10 * COEF_CAP + 3 * bucket_terms_cap(),
    {
        let precalc = self.precalc_for_year(policy_year);
        let income_terms: i64 = if income_activated {
            self.coefficients.income_main + self.coefficients.income_itm_low
        } else {
            0
        };
        let bucket_adj = self.bucket_coefficients.adjustment(
            bucket,
            policy_year,
            sc_period,
            income_activated,
        );
        precalc + self.coefficients.itm_low + self.coefficients.itm_high + income_terms
            + bucket_adj
    }

    /// Base component for the reference bucket under 50,000, with the standard
    /// ten-year charge period.
    pub fn base_component(&self, policy_year: u32, income_activated: bool) -> (r: i64)
        requires
            self.wf(),
            1 <= policy_year <= 1_000_000,
        ensures
            r == spec_base_component(
                *self,
                policy_year as int,
                income_activated,
                BenefitBaseBucket::Under50k,
                10,
            ),
    {
        self.base_component_with_bucket(policy_year, income_activated, BenefitBaseBucket::Under50k, 10)
    }

    /// Dynamic component for the actual in-the-moneyness level.
    pub fn dynamic_component(&self, itm_ness: i64, income_activated: bool) -> (r: i64)
        requires
            self.wf(),
            0 <= itm_ness <= ITM_CAP,
        ensures
            r == spec_dynamic_component(self.coefficients, itm_ness as int, income_activated),
            abs_i(r as int) <= 3 * COEF_CAP,
    {
        let c = &self.coefficients;
        let itm_low_clamped: i64 = if itm_ness < RATE_SCALE / 2 {
            RATE_SCALE / 2
        } else if itm_ness > RATE_SCALE {
            RATE_SCALE
        } else {
            itm_ness
        };
        let itm_high_clamped: i64 = if itm_ness < RATE_SCALE {
            RATE_SCALE
        } else if itm_ness > 2 * RATE_SCALE {
            2 * RATE_SCALE
        } else {
            itm_ness
        };
        let dev_lo: i64 = itm_low_clamped - RATE_SCALE;
        let dev_hi: i64 = itm_high_clamped - RATE_SCALE;
        proof {
            lemma_coef_dev_product(c.itm_high as int, dev_hi as int);
            lemma_coef_dev_product(c.itm_low as int, dev_lo as int);
            lemma_coef_dev_product(c.income_itm_low as int, dev_lo as int);
        }
        let t_high = mul_rate_signed(c.itm_high, dev_hi);
        let t_low = mul_rate_signed(c.itm_low, dev_lo);
        if income_activated {
            t_high + t_low + mul_rate_signed(c.income_itm_low, dev_lo)
        } else {
            t_high + t_low
        }
    }

    /// Annual lapse probability for a policy year, bucket and in-the-moneyness,
    /// through the log link.
    pub fn annual_lapse_prob_with_bucket(
        &self,
        policy_year: u32,
        income_activated: bool,
        itm_ness: i64,
        bucket: BenefitBaseBucket,
        sc_period: u32,
    ) -> (r: i64)
        requires
            self.wf(),
            1 <= policy_year <= 1_000_000,
            sc_period <= 1000,
            0 <= itm_ness <= ITM_CAP,
        ensures
            r == spec_annual_lapse_prob_of_eta(
                spec_base_component(
                    *self,
                    policy_year as int,
                    income_activated,
                    bucket,
                    sc_period as int,
                ) + spec_dynamic_component(self.coefficients, itm_ness as int, income_activated),
            ),
            0 <= r <= RATE_SCALE,
    {
        let base = self.base_component_with_bucket(policy_year, income_activated, bucket, sc_period);
        let dynamic = self.dynamic_component(itm_ness, income_activated);
        let eta: i64 = base + dynamic;
        let arg: i64 = if eta >= 0 {
            0
        } else if eta < -EXP_ARG_MAX {
            EXP_ARG_MAX
        } else {
            -eta
        };
        exp_neg(arg)
    }

    /// Annual lapse probability for the reference bucket with the standard
    /// ten-year charge period.
    pub fn annual_lapse_prob(&self, policy_year: u32, income_activated: bool, itm_ness: i64) -> (r:
        i64)
        requires
            self.wf(),
            1 <= policy_year <= 1_000_000,
            0 <= itm_ness <= ITM_CAP,
        ensures
            r == spec_annual_lapse_prob_of_eta(
                spec_base_component(
                    *self,
                    policy_year as int,
                    income_activated,
                    BenefitBaseBucket::Under50k,
                    10,
                ) + spec_dynamic_component(self.coefficients, itm_ness as int, income_activated),
            ),
            0 <= r <= RATE_SCALE,
    {
        self.annual_lapse_prob_with_bucket(
            policy_year,
            income_activated,
            itm_ness,
            BenefitBaseBucket::Under50k,
            10,
        )
    }

    /// Monthly lapse rate with the uniform one-twelfth skew, for the reference
    /// bucket; projection month one and exhausted accounts take none.
    pub fn monthly_lapse_rate(
        &self,
        projection_month: u32,
        policy_year: u32,
        income_activated: bool,
        itm_ness: i64,
    ) -> (r: i64)
        requires
            self.wf(),
            1 <= policy_year <= 1_000_000,
            itm_ness <= ITM_CAP,
        ensures
            projection_month == 1 ==> r == 0,
            itm_ness <= 0 ==> r == 0,
            0 <= r <= RATE_SCALE,
            (projection_month != 1 && itm_ness > 0) ==> r == spec_monthly_from_annual(
                spec_annual_lapse_prob_of_eta(
                    spec_base_component(
                        *self,
                        policy_year as int,
                        income_activated,
                        BenefitBaseBucket::Under50k,
                        10,
                    ) + spec_dynamic_component(
                        self.coefficients,
                        itm_ness as int,
                        income_activated,
                    ),
                ),
                15,
            ),
    {
        if projection_month == 1 {
            return 0;
        }
        if itm_ness <= 0 {
            return 0;
        }
        let annual_prob = self.annual_lapse_prob(policy_year, income_activated, itm_ness);
        monthly_from_annual(annual_prob, 15)
    }

    /// Monthly lapse rate with the shock-year skew and a bucket adjustment;
    /// projection month one and exhausted accounts take none.
    pub fn monthly_lapse_rate_with_skew(
        &self,
        projection_month: u32,
        policy_year: u32,
        month_in_policy_year: u32,
        income_activated: bool,
        itm_ness: i64,
        sc_period: u32,
        bucket: BenefitBaseBucket,
    ) -> (r: i64)
        requires
            self.wf(),
            1 <= policy_year <= 1_000_000,
            sc_period <= 1000,
            itm_ness <= ITM_CAP,
        ensures
            r == spec_monthly_lapse_rate(
                *self,
                projection_month as int,
                policy_year as int,
                month_in_policy_year as int,
                income_activated,
                itm_ness as int,
                sc_period as int,
                bucket,
            ),
            projection_month == 1 ==> r == 0,
            0 <= r <= RATE_SCALE,
    {
        if projection_month == 1 {
            return 0;
        }
        if itm_ness <= 0 {
            return 0;
        }
        let annual_prob = self.annual_lapse_prob_with_bucket(
            policy_year,
            income_activated,
            itm_ness,
            bucket,
            sc_period,
        );
        let skew_num = self.get_skew(policy_year, month_in_policy_year, sc_period);
        monthly_from_annual(annual_prob, skew_num)
    }

    /// Skew numerator over 180 for a month: the share of the annual lapse
    /// probability the month carries.
    pub fn get_skew(&self, policy_year: u32, month_in_policy_year: u32, sc_period: u32) -> (r:
        u32)
        requires
            sc_period <= 1000,
        ensures
            r == spec_skew_num(policy_year as int, month_in_policy_year as int, sc_period as int),
            1 <= r <= 72,
    {
        if policy_year == sc_period + 1 {
            if month_in_policy_year == 1 {
                72
            } else if month_in_policy_year == 2 {
                54
            } else if month_in_policy_year == 3 {
                36
            } else {
                2
            }
        } else {
            15
        }
    }
}

/// A coefficient against a deviation of at most one unit stays within the
/// multiplier's range.
proof fn lemma_coef_dev_product(c: int, dev: int) by (nonlinear_arith)
    requires
        abs_i(c) <= COEF_CAP,
        -(RATE_SCALE as int) <= dev <= RATE_SCALE,
    ensures
        -(i64::MAX as int * RATE_SCALE as int) <= c * dev <= i64::MAX as int * RATE_SCALE as int,
        abs_i(dev) <= RATE_SCALE,
{
}

/// The magnitude of a product is the product of the magnitudes.
proof fn lemma_abs_mul_commute(a: int, b: int) by (nonlinear_arith)
    ensures
        abs_i(a * b) == abs_i(a) * abs_i(b),
{
}

} // verus!
