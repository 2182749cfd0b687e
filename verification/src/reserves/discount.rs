//! Discount curve handling for reserve calculations: a single valuation rate,
//! an optional separate death-benefit rate, or a spot rate curve.

use vstd::prelude::*;
use crate::fixed::{
    RATE_SCALE, MONEY_CAP, scale_down, spec_pow_fx, pow_fx, spec_frac_pow_12, frac_pow_12,
    mul_money_rate, mul_rate_probs,
};

verus! {

/// Monthly discount factor of an annual rate: `1 / (1 + rate/12)` in fixed
/// point.
pub open spec fn spec_monthly_discount_factor(annual_rate: int) -> int {
    (RATE_SCALE as int * RATE_SCALE as int) / (RATE_SCALE + annual_rate / 12)
}

/// Monthly discount factor of an annual rate in [0, 1].
pub fn monthly_discount_factor(annual_rate: i64) -> (r: i64)
    requires
        0 <= annual_rate <= RATE_SCALE,
    ensures
        r == spec_monthly_discount_factor(annual_rate as int),
        0 <= r <= RATE_SCALE,
{
    let denom: i64 = RATE_SCALE + annual_rate / 12;
    let sq: i128 = 1_000_000_000_000_000_000;
    proof {
        assert(sq as int == RATE_SCALE as int * RATE_SCALE as int);
        vstd::arithmetic::div_mod::lemma_div_pos_is_pos(sq as int, denom as int);
        vstd::arithmetic::div_mod::lemma_div_is_ordered_by_denominator(
            sq as int,
            RATE_SCALE as int,
            denom as int,
        );
        vstd::arithmetic::div_mod::lemma_div_multiples_vanish(RATE_SCALE as int, RATE_SCALE as int);
    }
    (sq / (denom as i128)) as i64
}

/// Discount factor to a month for elective benefits, covering every branch:
/// the spot rate's fractional power (capped at one unit) where a curve is
/// given and the month lies inside it, the flat monthly factor's power
/// otherwise (including months past a shorter spot curve).
pub open spec fn spec_discount_elective(c: DiscountCurve, months: int) -> int {
    if c.spot_rates is Some && 0 <= months < c.spot_rates->0@.len() {
        let f = spec_frac_pow_12(
            (RATE_SCALE as int * RATE_SCALE as int) / (RATE_SCALE
                + c.spot_rates->0@[months]),
            months as nat,
        );
        if f > RATE_SCALE {
            RATE_SCALE as int
        } else {
            f
        }
    } else {
        spec_pow_fx(spec_monthly_discount_factor(c.valuation_rate as int), months as nat)
    }
}

/// Discount curve for reserve calculations, all rates annual and scaled.
#[derive(Debug, Clone)]
pub struct DiscountCurve {
    /// Primary valuation rate, for elective benefits.
    pub valuation_rate: i64,
    /// Separate rate for death benefits, where one applies.
    pub death_benefit_rate: Option<i64>,
    /// Spot rate curve by month, for precise elective discounting.
    pub spot_rates: Option<Vec<i64>>,
}

impl DiscountCurve {
    pub open spec fn wf(self) -> bool {
        &&& 0 <= self.valuation_rate <= RATE_SCALE
        &&& (self.death_benefit_rate matches Some(r) ==> 0 <= r <= RATE_SCALE)
        &&& (self.spot_rates matches Some(v) ==> forall|i: int|
            0 <= i < v@.len() ==> 0 <= #[trigger] v@[i] <= RATE_SCALE)
    }

    /// A curve with a single annual rate.
    pub fn single_rate(annual_rate: i64) -> (r: Self)
        requires
            0 <= annual_rate <= RATE_SCALE,
        ensures
            r.wf(),
            r.valuation_rate == annual_rate,
            r.death_benefit_rate is None,
            r.spot_rates is None,
    {
        DiscountCurve { valuation_rate: annual_rate, death_benefit_rate: None, spot_rates: None }
    }

    /// A curve with a separate death benefit rate.
    pub fn with_death_benefit_rate(valuation_rate: i64, death_benefit_rate: i64) -> (r: Self)
        requires
            0 <= valuation_rate <= RATE_SCALE,
            0 <= death_benefit_rate <= RATE_SCALE,
        ensures
            r.wf(),
            r.valuation_rate == valuation_rate,
            r.death_benefit_rate == Some(death_benefit_rate),
            r.spot_rates is None,
    {
        DiscountCurve {
            valuation_rate,
            death_benefit_rate: Some(death_benefit_rate),
            spot_rates: None,
        }
    }

    /// A curve built from spot rates; the first spot is the valuation rate.
    pub fn from_spot_curve(spot_rates: Vec<i64>) -> (r: Self)
        requires
            forall|i: int| 0 <= i < spot_rates@.len() ==> 0 <= #[trigger] spot_rates@[i]
                <= RATE_SCALE,
        ensures
            r.wf(),
            r.valuation_rate == (if spot_rates@.len() > 0 {
                spot_rates@[0] as int
            } else {
                0int
            }),
            r.spot_rates == Some(spot_rates),
    {
        let valuation_rate: i64 = if spot_rates.len() > 0 {
            spot_rates[0]
        } else {
            0
        };
        DiscountCurve { valuation_rate, death_benefit_rate: None, spot_rates: Some(spot_rates) }
    }

    /// Monthly discount factor for elective benefits.
    pub fn elective_discount_factor(&self) -> (r: i64)
        requires
            self.wf(),
        ensures
            r == spec_monthly_discount_factor(self.valuation_rate as int),
            0 <= r <= RATE_SCALE,
    {
        monthly_discount_factor(self.valuation_rate)
    }

    /// Monthly discount factor for death benefits: the separate rate where one
    /// applies, the valuation rate otherwise.
    pub fn death_benefit_discount_factor(&self) -> (r: i64)
        requires
            self.wf(),
        ensures
            r == spec_monthly_discount_factor(
                if self.death_benefit_rate is Some {
                    self.death_benefit_rate->0 as int
                } else {
                    self.valuation_rate as int
                },
            ),
            0 <= r <= RATE_SCALE,
    {
        match self.death_benefit_rate {
            Some(rate) => monthly_discount_factor(rate),
            None => monthly_discount_factor(self.valuation_rate),
        }
    }

    /// Discount factor to a month for elective benefits: the spot rate's
    /// fractional power where a curve is given and covers the month, the
    /// monthly factor's power otherwise.
    pub fn discount_to_month_elective(&self, months: u32) -> (r: i64)
        requires
            self.wf(),
        ensures
            r == spec_discount_elective(*self, months as int),
            0 <= r <= RATE_SCALE,
    {
        match &self.spot_rates {
            Some(spots) => {
                if (months as usize) < spots.len() {
                    let spot = spots[months as usize];
                    let denom: i64 = RATE_SCALE + spot;
                    let sq: i128 = 1_000_000_000_000_000_000;
                    proof {
                        assert(sq as int == RATE_SCALE as int * RATE_SCALE as int);
                        vstd::arithmetic::div_mod::lemma_div_pos_is_pos(sq as int, denom as int);
                        vstd::arithmetic::div_mod::lemma_div_is_ordered_by_denominator(
                            sq as int,
                            RATE_SCALE as int,
                            denom as int,
                        );
                        vstd::arithmetic::div_mod::lemma_div_multiples_vanish(
                            RATE_SCALE as int,
                            RATE_SCALE as int,
                        );
                    }
                    let inv: i64 = (sq / (denom as i128)) as i64;
                    let f = frac_pow_12(inv, months);
                    if f > RATE_SCALE {
                        RATE_SCALE
                    } else {
                        f
                    }
                } else {
                    pow_fx(monthly_discount_factor(self.valuation_rate), months)
                }
            },
            None => pow_fx(monthly_discount_factor(self.valuation_rate), months),
        }
    }

    /// Discount factor to a month for death benefits.
    pub fn discount_to_month_death(&self, months: u32) -> (r: i64)
        requires
            self.wf(),
        ensures
            r == spec_pow_fx(
                spec_monthly_discount_factor(
                    if self.death_benefit_rate is Some {
                        self.death_benefit_rate->0 as int
                    } else {
                        self.valuation_rate as int
                    },
                ),
                months as nat,
            ),
            0 <= r <= RATE_SCALE,
    {
        pow_fx(self.death_benefit_discount_factor(), months)
    }
}

/// Present value of a level annuity due in fixed point: payments at the start
/// of each of `n` months at a monthly rate, as the running sum of discount
/// powers times the payment.
pub open spec fn spec_pv_annuity_due(amount: int, n: nat, v: int) -> int
    decreases n,
{
    if n == 0 {
        0
    } else {
        let rest = spec_pv_annuity_due(amount, (n - 1) as nat, v);
        let this = scale_down(amount, spec_pow_fx(v, (n - 1) as nat));
        if rest + this > MONEY_CAP {
            MONEY_CAP as int
        } else {
            rest + this
        }
    }
}

/// Helper for present value calculations.
#[derive(Debug, Clone, Copy)]
pub struct PVCalculator;

impl PVCalculator {
    /// Present value of a level annuity due: `n` payments, the first
    /// immediate, discounted at a monthly rate; the total saturates at the
    /// kernel's money cap.
    pub fn pv_annuity_due(amount: i64, n_months: u32, monthly_rate: i64) -> (r: i64)
        requires
            0 <= amount <= MONEY_CAP,
            0 <= monthly_rate <= RATE_SCALE,
            n_months <= 100_000,
        ensures
            r == spec_pv_annuity_due(
                amount as int,
                n_months as nat,
                (RATE_SCALE as int * RATE_SCALE as int) / (RATE_SCALE + monthly_rate),
            ),
            0 <= r <= MONEY_CAP,
    {
        let denom: i64 = RATE_SCALE + monthly_rate;
        let sq: i128 = 1_000_000_000_000_000_000;
        proof {
            assert(sq as int == RATE_SCALE as int * RATE_SCALE as int);
            vstd::arithmetic::div_mod::lemma_div_pos_is_pos(sq as int, denom as int);
            vstd::arithmetic::div_mod::lemma_div_is_ordered_by_denominator(
                sq as int,
                RATE_SCALE as int,
                denom as int,
            );
            vstd::arithmetic::div_mod::lemma_div_multiples_vanish(
                RATE_SCALE as int,
                RATE_SCALE as int,
            );
        }
        let v: i64 = (sq / (denom as i128)) as i64;
        let mut total: i64 = 0;
        let mut disc: i64 = RATE_SCALE;
        let mut k: u32 = 0;
        while k < n_months
            invariant
                0 <= k <= n_months,
                0 <= v <= RATE_SCALE,
                0 <= amount <= MONEY_CAP,
                disc == spec_pow_fx(v as int, k as nat),
                0 <= disc <= RATE_SCALE,
                total == spec_pv_annuity_due(amount as int, k as nat, v as int),
                0 <= total <= MONEY_CAP,
            decreases n_months - k,
        {
            let this = mul_money_rate(amount, disc);
            total = if total + this > MONEY_CAP {
                MONEY_CAP
            } else {
                total + this
            };
            disc = mul_rate_probs(disc, v);
            k = k + 1;
        }
        total
    }

    /// Present value of a level ordinary annuity: the due annuity shifted one
    /// month.
    pub fn pv_annuity_ordinary(amount: i64, n_months: u32, monthly_rate: i64) -> (r: i64)
        requires
            0 <= amount <= MONEY_CAP,
            0 <= monthly_rate <= RATE_SCALE,
            n_months <= 100_000,
        ensures
            r == scale_down(
                spec_pv_annuity_due(
                    amount as int,
                    n_months as nat,
                    (RATE_SCALE as int * RATE_SCALE as int) / (RATE_SCALE + monthly_rate),
                ),
                (RATE_SCALE as int * RATE_SCALE as int) / (RATE_SCALE + monthly_rate),
            ),
            0 <= r <= MONEY_CAP,
    {
        let due = PVCalculator::pv_annuity_due(amount, n_months, monthly_rate);
        let v = monthly_discount_factor_of_monthly(monthly_rate);
        mul_money_rate(due, v)
    }

    /// Present value of a life annuity: (month, survival, payment) entries
    /// weighted by survival and discounted at the curve's elective factor,
    /// saturating at the cap.
    pub fn pv_life_annuity(payments: &Vec<(u32, i64, i64)>, discount_curve: &DiscountCurve) -> (r:
        i64)
        requires
            discount_curve.wf(),
            forall|i: int| 0 <= i < payments@.len() ==> {
                &&& 0 <= (#[trigger] payments@[i]).1 <= RATE_SCALE
                &&& 0 <= payments@[i].2 <= MONEY_CAP
            },
        ensures
            r == spec_pv_life_annuity(*discount_curve, payments@, payments@.len() as int),
            0 <= r <= MONEY_CAP,
    {
        let n = payments.len();
        let mut total: i64 = 0;
        let mut i: usize = 0;
        while i < n
            invariant
                0 <= i <= n,
                n == payments@.len(),
                discount_curve.wf(),
                forall|j: int| 0 <= j < n ==> {
                    &&& 0 <= (#[trigger] payments@[j]).1 <= RATE_SCALE
                    &&& 0 <= payments@[j].2 <= MONEY_CAP
                },
                total == spec_pv_life_annuity(*discount_curve, payments@, i as int),
                0 <= total <= MONEY_CAP,
            decreases n - i,
        {
            let (month, surv, payment) = payments[i];
            let disc = discount_curve.discount_to_month_elective(month);
            let weighted = mul_money_rate(mul_money_rate(payment, surv), disc);
            total = if total + weighted > MONEY_CAP {
                MONEY_CAP
            } else {
                total + weighted
            };
            i = i + 1;
        }
        total
    }
}

/// Present value of the first `k` (month, survival, payment) life annuity
/// entries, each survival-weighted and discounted to its month, the total
/// saturating at the kernel's money cap after each addition.
pub open spec fn spec_pv_life_annuity(
    c: DiscountCurve,
    payments: Seq<(u32, i64, i64)>,
    k: int,
) -> int
    decreases k,
{
    if k <= 0 {
        0
    } else {
        let prev = spec_pv_life_annuity(c, payments, k - 1);
        let this = scale_down(
            scale_down(payments[k - 1].2 as int, payments[k - 1].1 as int),
            spec_discount_elective(c, payments[k - 1].0 as int),
        );
        if prev + this > MONEY_CAP {
            MONEY_CAP as int
        } else {
            prev + this
        }
    }
}

/// Reciprocal of one plus a monthly rate, in fixed point.
fn monthly_discount_factor_of_monthly(monthly_rate: i64) -> (r: i64)
    requires
        0 <= monthly_rate <= RATE_SCALE,
    ensures
        r == (RATE_SCALE as int * RATE_SCALE as int) / (RATE_SCALE + monthly_rate),
        0 <= r <= RATE_SCALE,
{
    let denom: i64 = RATE_SCALE + monthly_rate;
    let sq: i128 = 1_000_000_000_000_000_000;
    proof {
        assert(sq as int == RATE_SCALE as int * RATE_SCALE as int);
        vstd::arithmetic::div_mod::lemma_div_pos_is_pos(sq as int, denom as int);
        vstd::arithmetic::div_mod::lemma_div_is_ordered_by_denominator(
            sq as int,
            RATE_SCALE as int,
            denom as int,
        );
        vstd::arithmetic::div_mod::lemma_div_multiples_vanish(RATE_SCALE as int, RATE_SCALE as int);
    }
    (sq / (denom as i128)) as i64
}

/// Present value of the first `k` (month, amount) elective benefits, each
/// discounted to its month, the total saturating at the kernel's money cap
/// after each addition.
pub open spec fn spec_pv_elective_stream(c: DiscountCurve, benefits: Seq<(u32, i64)>, k: int) -> int
    decreases k,
{
    if k <= 0 {
        0
    } else {
        let prev = spec_pv_elective_stream(c, benefits, k - 1);
        let this = scale_down(
            benefits[k - 1].1 as int,
            spec_discount_elective(c, benefits[k - 1].0 as int),
        );
        if prev + this > MONEY_CAP {
            MONEY_CAP as int
        } else {
            prev + this
        }
    }
}

/// Present value of the first `k` (month, probability, amount) death
/// benefits, each probability-weighted and discounted to its month, the total
/// saturating at the kernel's money cap after each addition.
pub open spec fn spec_pv_death_stream(
    c: DiscountCurve,
    benefits: Seq<(u32, i64, i64)>,
    k: int,
) -> int
    decreases k,
{
    if k <= 0 {
        0
    } else {
        let prev = spec_pv_death_stream(c, benefits, k - 1);
        let this = scale_down(
            scale_down(benefits[k - 1].2 as int, benefits[k - 1].1 as int),
            spec_pow_fx(
                spec_monthly_discount_factor(
                    if c.death_benefit_rate is Some {
                        c.death_benefit_rate->0 as int
                    } else {
                        c.valuation_rate as int
                    },
                ),
                benefits[k - 1].0 as nat,
            ),
        );
        if prev + this > MONEY_CAP {
            MONEY_CAP as int
        } else {
            prev + this
        }
    }
}

impl DiscountCurve {
    /// Present value of (month, amount) elective benefits, each discounted to
    /// its month, saturating at the kernel's money cap.
    pub fn pv_elective_stream(&self, benefits: &Vec<(u32, i64)>) -> (r: i64)
        requires
            self.wf(),
            forall|i: int| 0 <= i < benefits@.len() ==> 0 <= (#[trigger] benefits@[i]).1
                <= MONEY_CAP,
        ensures
            r == spec_pv_elective_stream(*self, benefits@, benefits@.len() as int),
            0 <= r <= MONEY_CAP,
    {
        let n = benefits.len();
        let mut total: i64 = 0;
        let mut i: usize = 0;
        while i < n
            invariant
                0 <= i <= n,
                n == benefits@.len(),
                self.wf(),
                forall|j: int| 0 <= j < n ==> 0 <= (#[trigger] benefits@[j]).1 <= MONEY_CAP,
                total == spec_pv_elective_stream(*self, benefits@, i as int),
                0 <= total <= MONEY_CAP,
            decreases n - i,
        {
            let (month, amount) = benefits[i];
            let disc = self.discount_to_month_elective(month);
            let this = mul_money_rate(amount, disc);
            total = if total + this > MONEY_CAP {
                MONEY_CAP
            } else {
                total + this
            };
            i = i + 1;
        }
        total
    }

    /// Present value of (month, probability, amount) death benefits, each
    /// probability-weighted and discounted to its month, saturating at the
    /// kernel's money cap.
    pub fn pv_death_benefit_stream(&self, benefits: &Vec<(u32, i64, i64)>) -> (r: i64)
        requires
            self.wf(),
            forall|i: int| 0 <= i < benefits@.len() ==> {
                &&& 0 <= (#[trigger] benefits@[i]).1 <= RATE_SCALE
                &&& 0 <= benefits@[i].2 <= MONEY_CAP
            },
        ensures
            r == spec_pv_death_stream(*self, benefits@, benefits@.len() as int),
            0 <= r <= MONEY_CAP,
    {
        let n = benefits.len();
        let mut total: i64 = 0;
        let mut i: usize = 0;
        while i < n
            invariant
                0 <= i <= n,
                n == benefits@.len(),
                self.wf(),
                forall|j: int| 0 <= j < n ==> {
                    &&& 0 <= (#[trigger] benefits@[j]).1 <= RATE_SCALE
                    &&& 0 <= benefits@[j].2 <= MONEY_CAP
                },
                total == spec_pv_death_stream(*self, benefits@, i as int),
                0 <= total <= MONEY_CAP,
            decreases n - i,
        {
            let (month, prob, amount) = benefits[i];
            let disc = self.discount_to_month_death(month);
            let this = mul_money_rate(mul_money_rate(amount, prob), disc);
            total = if total + this > MONEY_CAP {
                MONEY_CAP
            } else {
                total + this
            };
            i = i + 1;
        }
        total
    }
}

} // verus!
