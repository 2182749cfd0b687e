//! Fixed-point arithmetic used throughout the library.
//!
//! Rates, factors and probabilities are integers scaled by `RATE_SCALE`
//! (1.0 == `RATE_SCALE`); money amounts are integers in cents.  Products of two
//! scaled quantities are rescaled by `RATE_SCALE`, rounding towards zero.

use vstd::prelude::*;

verus! {

/// One unit (1.0) in the scaled-rate representation.
pub const RATE_SCALE: i64 = 1_000_000_000;

/// Ceiling the projection kernel keeps money amounts under (in cents).
pub const MONEY_CAP: i64 = 100_000_000_000_000_000;

/// Mathematical value of a product of two non-negative scaled quantities,
/// rescaled and rounded down.
pub open spec fn scale_down(a: int, b: int) -> int {
    (a * b) / (RATE_SCALE as int)
}

/// Truncating (towards zero) quotient, the semantics of machine division.
pub open spec fn div_trunc(a: int, d: int) -> int {
    if a >= 0 {
        a / d
    } else {
        -((-a) / d)
    }
}

/// Product of two scaled quantities of either sign, rescaled, rounding towards zero.
pub open spec fn scale_down_signed(a: int, b: int) -> int {
    div_trunc(a * b, RATE_SCALE as int)
}

/// Absolute value.
pub open spec fn abs_i(a: int) -> int {
    if a >= 0 {
        a
    } else {
        -a
    }
}

/// A non-negative value divided by `RATE_SCALE` stays below any `m` whose
/// product with `RATE_SCALE` bounds it.
proof fn lemma_scale_div_bound(p: int, m: int)
    requires
        0 <= p,
        0 <= m,
        p <= m * RATE_SCALE,
    ensures
        0 <= p / (RATE_SCALE as int) <= m,
{
    vstd::arithmetic::div_mod::lemma_div_pos_is_pos(p, RATE_SCALE as int);
    vstd::arithmetic::div_mod::lemma_div_is_ordered(p, m * RATE_SCALE as int, RATE_SCALE as int);
    vstd::arithmetic::div_mod::lemma_div_multiples_vanish(m, RATE_SCALE as int);
}

/// Multiply two non-negative scaled values and rescale, rounding down.
pub fn mul_rate(a: i64, b: i64) -> (r: i64)
    requires
        0 <= a,
        0 <= b,
        a * b <= i64::MAX as int * RATE_SCALE as int,
    ensures
        r == scale_down(a as int, b as int),
        0 <= r,
{
    let p: i128 = (a as i128) * (b as i128);
    proof {
        lemma_scale_div_bound(p as int, i64::MAX as int);
    }
    (p / (RATE_SCALE as i128)) as i64
}

/// The product of the absolute values is the absolute value of the product.
proof fn lemma_abs_mul(a: int, b: int, au: int, bu: int) by (nonlinear_arith)
    requires
        au == if a < 0 { -a } else { a },
        bu == if b < 0 { -b } else { b },
    ensures
        0 <= au * bu,
        au * bu == if a * b >= 0 { a * b } else { -(a * b) },
        ((a < 0) != (b < 0)) ==> a * b <= 0,
        ((a < 0) == (b < 0)) ==> a * b >= 0,
{
}

/// Multiply two scaled values of either sign and rescale, rounding towards zero.
pub fn mul_rate_signed(a: i64, b: i64) -> (r: i64)
    requires
        -(i64::MAX as int) <= a,
        -(i64::MAX as int) <= b,
        -(i64::MAX as int * RATE_SCALE as int) <= a * b <= i64::MAX as int * RATE_SCALE as int,
    ensures
        r == scale_down_signed(a as int, b as int),
        abs_i(b as int) <= RATE_SCALE ==> abs_i(r as int) <= abs_i(a as int),
        abs_i(b as int) <= 2 * RATE_SCALE ==> abs_i(r as int) <= 2 * abs_i(a as int),
        abs_i(b as int) <= 4 * RATE_SCALE ==> abs_i(r as int) <= 4 * abs_i(a as int),
        (a >= 0 && b >= 0) ==> r >= 0,
{
    let na = a < 0;
    let nb = b < 0;
    let au: i64 = if na { -a } else { a };
    let bu: i64 = if nb { -b } else { b };
    proof {
        lemma_abs_mul(a as int, b as int, au as int, bu as int);
        if bu <= RATE_SCALE {
            lemma_scale_shrink(au as int, bu as int);
        }
        if bu <= 2 * RATE_SCALE {
            lemma_mul_ordered(au as int, au as int, bu as int, 2 * RATE_SCALE as int);
            vstd::arithmetic::div_mod::lemma_div_is_ordered(
                au as int * bu as int,
                au as int * (2 * RATE_SCALE as int),
                RATE_SCALE as int,
            );
            vstd::arithmetic::div_mod::lemma_div_multiples_vanish(
                2 * au as int,
                RATE_SCALE as int,
            );
            assert(au as int * (2 * RATE_SCALE as int) == RATE_SCALE as int * (2 * au as int))
                by (nonlinear_arith);
        }
        if bu <= 4 * RATE_SCALE {
            lemma_mul_ordered(au as int, au as int, bu as int, 4 * RATE_SCALE as int);
            vstd::arithmetic::div_mod::lemma_div_is_ordered(
                au as int * bu as int,
                au as int * (4 * RATE_SCALE as int),
                RATE_SCALE as int,
            );
            vstd::arithmetic::div_mod::lemma_div_multiples_vanish(
                4 * au as int,
                RATE_SCALE as int,
            );
            assert(au as int * (4 * RATE_SCALE as int) == RATE_SCALE as int * (4 * au as int))
                by (nonlinear_arith);
        }
    }
    let p: i128 = (au as i128) * (bu as i128);
    proof {
        lemma_scale_div_bound(p as int, i64::MAX as int);
    }
    let q: i64 = (p / (RATE_SCALE as i128)) as i64;
    if na != nb {
        -q
    } else {
        q
    }
}

/// Fixed-point power: `x` (scaled, in [0, RATE_SCALE]) raised to the `n`-th
/// power, one rescaling truncation per multiplication.
pub open spec fn spec_pow_fx(x: int, n: nat) -> int
    decreases n,
{
    if n == 0 {
        RATE_SCALE as int
    } else {
        scale_down(spec_pow_fx(x, (n - 1) as nat), x)
    }
}

/// Bounds needed for one power step.
proof fn lemma_mul_in_square(p: int, x: int) by (nonlinear_arith)
    requires
        0 <= p <= RATE_SCALE,
        0 <= x <= RATE_SCALE,
    ensures
        0 <= p * x <= RATE_SCALE as int * RATE_SCALE as int,
        p * x <= i64::MAX as int * RATE_SCALE as int,
{
}

/// A fixed-point power of a value in [0, RATE_SCALE] stays in [0, RATE_SCALE].
pub proof fn lemma_pow_fx_bounds(x: int, n: nat)
    requires
        0 <= x <= RATE_SCALE,
    ensures
        0 <= spec_pow_fx(x, n) <= RATE_SCALE,
    decreases n,
{
    if n > 0 {
        lemma_pow_fx_bounds(x, (n - 1) as nat);
        let p = spec_pow_fx(x, (n - 1) as nat);
        lemma_mul_in_square(p, x);
        lemma_scale_div_bound(p * x, RATE_SCALE as int);
    }
}

/// Products over [0, RATE_SCALE] are ordered when both factors are.
proof fn lemma_mul_ordered(p: int, q: int, x: int, y: int) by (nonlinear_arith)
    requires
        0 <= p <= q,
        0 <= x <= y,
    ensures
        p * x <= q * y,
{
}

/// The fixed-point power is monotone in its base.
pub proof fn lemma_pow_fx_mono(x: int, y: int, n: nat)
    requires
        0 <= x <= y <= RATE_SCALE,
    ensures
        spec_pow_fx(x, n) <= spec_pow_fx(y, n),
    decreases n,
{
    if n > 0 {
        lemma_pow_fx_mono(x, y, (n - 1) as nat);
        let p = spec_pow_fx(x, (n - 1) as nat);
        let q = spec_pow_fx(y, (n - 1) as nat);
        lemma_pow_fx_bounds(x, (n - 1) as nat);
        lemma_pow_fx_bounds(y, (n - 1) as nat);
        lemma_mul_ordered(p, q, x, y);
        vstd::arithmetic::div_mod::lemma_div_is_ordered(p * x, q * y, RATE_SCALE as int);
    }
}

/// A full unit raised to any power is still a full unit.
pub proof fn lemma_pow_fx_one(n: nat)
    ensures
        spec_pow_fx(RATE_SCALE as int, n) == RATE_SCALE as int,
    decreases n,
{
    if n > 0 {
        lemma_pow_fx_one((n - 1) as nat);
        vstd::arithmetic::div_mod::lemma_div_multiples_vanish(
            RATE_SCALE as int,
            RATE_SCALE as int,
        );
    }
}

/// Fixed-point power of a scaled value in [0, RATE_SCALE].
pub fn pow_fx(x: i64, n: u32) -> (r: i64)
    requires
        0 <= x <= RATE_SCALE,
    ensures
        r == spec_pow_fx(x as int, n as nat),
        0 <= r <= RATE_SCALE,
{
    proof {
        lemma_pow_fx_bounds(x as int, n as nat);
    }
    let mut acc: i64 = RATE_SCALE;
    let mut i: u32 = 0;
    while i < n
        invariant
            0 <= i <= n,
            0 <= x <= RATE_SCALE,
            acc == spec_pow_fx(x as int, i as nat),
            0 <= acc <= RATE_SCALE,
        decreases n - i,
    {
        proof {
            lemma_mul_in_square(acc as int, x as int);
            lemma_pow_fx_bounds(x as int, (i + 1) as nat);
        }
        acc = mul_rate(acc, x);
        i = i + 1;
    }
    acc
}

/// `r` is the upward-rounded fixed-point `k`-th root of `y`: the smallest
/// scaled value whose `k`-th fixed-point power reaches `y`.
pub open spec fn is_kth_root_fx(y: int, k: nat, r: int) -> bool {
    &&& 0 <= r <= RATE_SCALE
    &&& spec_pow_fx(r, k) >= y
    &&& (r == 0 || spec_pow_fx(r - 1, k) < y)
}

/// Two values satisfying the root characterisation are equal.
pub proof fn lemma_kth_root_unique(y: int, k: nat, r1: int, r2: int)
    requires
        is_kth_root_fx(y, k, r1),
        is_kth_root_fx(y, k, r2),
    ensures
        r1 == r2,
{
    if r1 < r2 {
        lemma_pow_fx_mono(r1, r2 - 1, k);
    }
    if r2 < r1 {
        lemma_pow_fx_mono(r2, r1 - 1, k);
    }
}

/// Any point whose power reaches `y` has a root value at or below it.
proof fn lemma_root_exists_below(y: int, k: nat, r0: int)
    requires
        0 <= y,
        0 <= r0 <= RATE_SCALE,
        spec_pow_fx(r0, k) >= y,
    ensures
        exists|r: int| #[trigger] is_kth_root_fx(y, k, r),
    decreases r0,
{
    if r0 == 0 || spec_pow_fx(r0 - 1, k) < y {
        assert(is_kth_root_fx(y, k, r0));
    } else {
        lemma_pow_fx_bounds(r0 - 1, k);
        lemma_root_exists_below(y, k, r0 - 1);
    }
}

/// The upward-rounded root exists for every probability-sized argument.
pub proof fn lemma_root_exists(y: int, k: nat)
    requires
        0 <= y <= RATE_SCALE,
    ensures
        is_kth_root_fx(y, k, spec_root_up(y, k)),
{
    lemma_pow_fx_one(k);
    lemma_root_exists_below(y, k, RATE_SCALE as int);
    let r = choose|r: int| #[trigger] is_kth_root_fx(y, k, r);
    lemma_kth_root_unique(y, k, r, spec_root_up(y, k));
}

/// The upward-rounded fixed-point `k`-th root of `y`.
pub open spec fn spec_root_up(y: int, k: nat) -> int {
    choose|r: int| #[trigger] is_kth_root_fx(y, k, r)
}

/// Upward-rounded fixed-point `k`-th root of `y`, by binary search on the
/// monotone fixed-point power.
pub fn root_fx(y: i64, k: u32) -> (r: i64)
    requires
        0 <= y <= RATE_SCALE,
        k >= 1,
    ensures
        is_kth_root_fx(y as int, k as nat, r as int),
        r == spec_root_up(y as int, k as nat),
        0 <= r <= RATE_SCALE,
{
    let mut lo: i64 = 0;
    let mut hi: i64 = RATE_SCALE;
    proof {
        lemma_pow_fx_one(k as nat);
    }
    while lo < hi
        invariant
            0 <= lo <= hi <= RATE_SCALE,
            spec_pow_fx(hi as int, k as nat) >= y,
            lo == 0 || spec_pow_fx(lo as int - 1, k as nat) < y,
        decreases hi - lo,
    {
        let mid: i64 = lo + (hi - lo) / 2;
        let p = pow_fx(mid, k);
        if p >= y {
            hi = mid;
        } else {
            lo = mid + 1;
        }
    }
    proof {
        lemma_root_exists(y as int, k as nat);
        lemma_kth_root_unique(y as int, k as nat, lo as int, spec_root_up(y as int, k as nat));
    }
    lo
}

/// The monthly decrement rate that spreads the annual probability `annual`
/// over a month carrying `num/180` of the year: `1 - (1 - annual)^(num/180)`
/// in fixed point, the 180th root rounded up and the powers rounded down.
pub open spec fn spec_monthly_from_annual(annual: int, num: nat) -> int {
    RATE_SCALE - spec_root_up(spec_pow_fx(RATE_SCALE as int - annual, num), 180)
}

/// Convert an annual probability to the monthly rate for a month carrying
/// `num/180` of the year (15/180 is the uniform month, 1/12).
pub fn monthly_from_annual(annual: i64, num: u32) -> (m: i64)
    requires
        0 <= annual <= RATE_SCALE,
    ensures
        m == spec_monthly_from_annual(annual as int, num as nat),
        0 <= m <= RATE_SCALE,
{
    let base = pow_fx(RATE_SCALE - annual, num);
    let r = root_fx(base, 180);
    RATE_SCALE - r
}

/// The reciprocal of a growth factor between one and two units lies between
/// half a unit and a full unit.
proof fn lemma_reciprocal_in_half_unit(denom: int)
    requires
        RATE_SCALE <= denom <= 2 * RATE_SCALE,
    ensures
        RATE_SCALE / 2 <= (RATE_SCALE as int * RATE_SCALE as int) / denom <= RATE_SCALE,
{
    let sq = RATE_SCALE as int * RATE_SCALE as int;
    vstd::arithmetic::div_mod::lemma_div_is_ordered_by_denominator(sq, RATE_SCALE as int, denom);
    vstd::arithmetic::div_mod::lemma_div_is_ordered_by_denominator(sq, denom, 2 * RATE_SCALE as int);
    vstd::arithmetic::div_mod::lemma_div_multiples_vanish(RATE_SCALE as int, RATE_SCALE as int);
    vstd::arithmetic::div_mod::lemma_div_multiples_vanish(
        RATE_SCALE as int / 2,
        2 * RATE_SCALE as int,
    );
    assert(sq == (RATE_SCALE as int / 2) * (2 * RATE_SCALE as int));
    assert(sq / (2 * RATE_SCALE as int) == RATE_SCALE / 2);
    assert(sq / (RATE_SCALE as int) == RATE_SCALE as int);
}

/// The twelfth root of a value at or above half a unit stays above half a
/// unit, so its reciprocal is a growth factor of at most two units.
pub proof fn lemma_root_half_lower(y: int, d: int)
    requires
        RATE_SCALE / 2 <= y <= RATE_SCALE,
        is_kth_root_fx(y, 12, d),
    ensures
        RATE_SCALE / 2 <= d <= RATE_SCALE,
        RATE_SCALE <= (RATE_SCALE as int * RATE_SCALE as int) / d <= 2 * RATE_SCALE,
{
    let sq = RATE_SCALE as int * RATE_SCALE as int;
    lemma_pow_fx_le_base(d, 12);
    assert(RATE_SCALE / 2 <= d <= RATE_SCALE);
    vstd::arithmetic::div_mod::lemma_div_is_ordered_by_denominator(sq, RATE_SCALE as int / 2, d);
    vstd::arithmetic::div_mod::lemma_div_is_ordered_by_denominator(sq, d, RATE_SCALE as int);
    vstd::arithmetic::div_mod::lemma_div_multiples_vanish(RATE_SCALE as int, RATE_SCALE as int);
    vstd::arithmetic::div_mod::lemma_div_multiples_vanish(
        2 * RATE_SCALE as int,
        RATE_SCALE as int / 2,
    );
    assert(sq == (RATE_SCALE as int / 2) * (2 * RATE_SCALE as int));
    assert(sq == RATE_SCALE as int * RATE_SCALE as int);
    assert(sq / (RATE_SCALE as int / 2) == 2 * RATE_SCALE);
    assert(sq / (RATE_SCALE as int) == RATE_SCALE as int);
    assert(sq / d <= sq / (RATE_SCALE as int / 2));
    assert(sq / d >= sq / (RATE_SCALE as int));
}

/// The monthly compounding factor of an annual growth rate:
/// `(1 + annual)^(1/12)` in fixed point, computed through the reciprocal so
/// that only roots of values at or under one unit are needed.
pub open spec fn spec_monthly_compound_factor(annual: int) -> int {
    let sq = RATE_SCALE as int * RATE_SCALE as int;
    sq / spec_root_up(sq / (RATE_SCALE + annual), 12)
}

/// Monthly compounding factor of an annual growth rate in [0, 1].
pub fn monthly_compound_factor(annual: i64) -> (r: i64)
    requires
        0 <= annual <= RATE_SCALE,
    ensures
        r == spec_monthly_compound_factor(annual as int),
        RATE_SCALE <= r <= 2 * RATE_SCALE,
{
    let denom: i64 = RATE_SCALE + annual;
    let sq: i128 = 1_000_000_000_000_000_000;
    proof {
        assert(sq as int == RATE_SCALE as int * RATE_SCALE as int);
        lemma_reciprocal_in_half_unit(denom as int);
    }
    let inv: i64 = (sq / (denom as i128)) as i64;
    let d: i64 = root_fx(inv, 12);
    proof {
        lemma_root_half_lower(inv as int, d as int);
    }
    (sq / (d as i128)) as i64
}

/// Arguments at or below this cutoff are small enough for the cubic series of
/// the exponential; larger arguments are halved first.
pub const EXP_CUTOFF: i64 = 31_250_000;

/// Linear predictors below -50 are floored there: already at -50 the scaled
/// probability truncates to zero.
pub const EXP_ARG_MAX: i64 = 50_000_000_000;

/// Cubic series for `e^(-x)` at small `x`: `1 - x + x^2/2 - x^3/6` in fixed point.
pub open spec fn spec_exp_series(x: int) -> int {
    let x2 = scale_down(x, x);
    let x3 = scale_down(x2, x);
    RATE_SCALE - x + x2 / 2 - x3 / 6
}

/// Fixed-point `e^(-x)` for `x >= 0`: the cubic series under the cutoff, and
/// `e^(-x) = e^(-x/2) * e^(-(x - x/2))` above it.
pub open spec fn spec_exp_neg(x: int) -> int
    decreases x,
{
    if x <= EXP_CUTOFF {
        spec_exp_series(if x < 0 { 0 } else { x })
    } else {
        scale_down(spec_exp_neg(x / 2), spec_exp_neg(x - x / 2))
    }
}

/// Rescaling a non-negative value by a factor in [0, RATE_SCALE] shrinks it.
pub proof fn lemma_scale_shrink(a: int, x: int)
    requires
        0 <= a,
        0 <= x <= RATE_SCALE,
    ensures
        0 <= scale_down(a, x) <= a,
{
    lemma_mul_ordered(a, a, x, RATE_SCALE as int);
    vstd::arithmetic::div_mod::lemma_div_pos_is_pos(a * x, RATE_SCALE as int);
    vstd::arithmetic::div_mod::lemma_div_is_ordered(
        a * x,
        a * RATE_SCALE as int,
        RATE_SCALE as int,
    );
    vstd::arithmetic::div_mod::lemma_div_multiples_vanish(a, RATE_SCALE as int);
}

/// The series stays inside [0, RATE_SCALE] on its domain.
proof fn lemma_exp_series_bounds(x: int)
    requires
        0 <= x <= EXP_CUTOFF,
    ensures
        0 <= spec_exp_series(x) <= RATE_SCALE,
{
    lemma_scale_shrink(x, x);
    lemma_scale_shrink(scale_down(x, x), x);
    vstd::arithmetic::div_mod::lemma_div_pos_is_pos(scale_down(x, x), 2);
    vstd::arithmetic::div_mod::lemma_div_pos_is_pos(scale_down(scale_down(x, x), x), 6);
    vstd::arithmetic::div_mod::lemma_div_is_ordered(scale_down(x, x), x, 2);
    vstd::arithmetic::div_mod::lemma_div_is_ordered(scale_down(scale_down(x, x), x), x, 6);
    vstd::arithmetic::div_mod::lemma_div_nonincreasing(x, 2);
    vstd::arithmetic::div_mod::lemma_div_nonincreasing(x, 6);
}

/// The fixed-point exponential stays inside [0, RATE_SCALE].
pub proof fn lemma_exp_neg_bounds(x: int)
    ensures
        0 <= spec_exp_neg(x) <= RATE_SCALE,
    decreases x,
{
    if x <= EXP_CUTOFF {
        lemma_exp_series_bounds(if x < 0 { 0 } else { x });
    } else {
        lemma_exp_neg_bounds(x / 2);
        lemma_exp_neg_bounds(x - x / 2);
        lemma_scale_shrink(spec_exp_neg(x / 2), spec_exp_neg(x - x / 2));
    }
}

/// Fixed-point `e^(-x)` for a non-negative scaled argument.
pub fn exp_neg(x: i64) -> (r: i64)
    requires
        0 <= x,
    ensures
        r == spec_exp_neg(x as int),
        0 <= r <= RATE_SCALE,
    decreases x,
{
    proof {
        lemma_exp_neg_bounds(x as int);
    }
    if x <= EXP_CUTOFF {
        proof {
            lemma_mul_in_square(x as int, x as int);
        }
        let x2: i64 = mul_rate(x, x) / 2;
        proof {
            lemma_scale_shrink(x as int, x as int);
            vstd::arithmetic::div_mod::lemma_div_pos_is_pos(scale_down(x as int, x as int), 2);
            vstd::arithmetic::div_mod::lemma_div_is_ordered(
                scale_down(x as int, x as int),
                x as int,
                2,
            );
            lemma_mul_in_square(scale_down(x as int, x as int), x as int);
        }
        let x3: i64 = mul_rate(mul_rate(x, x), x) / 6;
        proof {
            lemma_scale_shrink(scale_down(x as int, x as int), x as int);
            vstd::arithmetic::div_mod::lemma_div_pos_is_pos(
                scale_down(scale_down(x as int, x as int), x as int),
                6,
            );
            vstd::arithmetic::div_mod::lemma_div_is_ordered(
                scale_down(scale_down(x as int, x as int), x as int),
                scale_down(x as int, x as int),
                6,
            );
        }
        RATE_SCALE - x + x2 - x3
    } else {
        let h1 = exp_neg(x / 2);
        let h2 = exp_neg(x - x / 2);
        proof {
            lemma_mul_in_square(h1 as int, h2 as int);
        }
        mul_rate(h1, h2)
    }
}

/// The product of an in-cap money amount and a bounded rate fits the
/// multiplier's range.
proof fn lemma_money_rate_fits(m: int, x: int) by (nonlinear_arith)
    requires
        0 <= m <= 4 * MONEY_CAP,
        0 <= x <= 4 * RATE_SCALE,
    ensures
        0 <= m * x <= i64::MAX as int * RATE_SCALE as int,
{
}

/// Multiply a money amount (cents) by a scaled rate, rounding down.  A rate at
/// or under one unit cannot grow the amount.
pub fn mul_money_rate(m: i64, x: i64) -> (r: i64)
    requires
        0 <= m <= 4 * MONEY_CAP,
        0 <= x <= 4 * RATE_SCALE,
    ensures
        r == scale_down(m as int, x as int),
        0 <= r,
        x <= RATE_SCALE ==> r <= m,
        x <= 2 * RATE_SCALE ==> r <= 2 * m,
        r <= 4 * m,
{
    proof {
        lemma_money_rate_fits(m as int, x as int);
        if x <= RATE_SCALE {
            lemma_scale_shrink(m as int, x as int);
        }
        if x <= 2 * RATE_SCALE {
            lemma_mul_ordered(m as int, m as int, x as int, 2 * RATE_SCALE as int);
            vstd::arithmetic::div_mod::lemma_div_is_ordered(
                m as int * x as int,
                m as int * (2 * RATE_SCALE as int),
                RATE_SCALE as int,
            );
            vstd::arithmetic::div_mod::lemma_div_multiples_vanish(
                2 * m as int,
                RATE_SCALE as int,
            );
            assert(m as int * (2 * RATE_SCALE as int) == RATE_SCALE as int * (2 * m as int))
                by (nonlinear_arith);
        }
        lemma_mul_ordered(m as int, m as int, x as int, 4 * RATE_SCALE as int);
        vstd::arithmetic::div_mod::lemma_div_is_ordered(
            m as int * x as int,
            m as int * (4 * RATE_SCALE as int),
            RATE_SCALE as int,
        );
        vstd::arithmetic::div_mod::lemma_div_multiples_vanish(4 * m as int, RATE_SCALE as int);
        assert(m as int * (4 * RATE_SCALE as int) == RATE_SCALE as int * (4 * m as int))
            by (nonlinear_arith);
    }
    mul_rate(m, x)
}

/// Multiply two non-negative scaled values, rescale rounding down, and cap the
/// result at `MONEY_CAP`; no bound on the inputs is needed.
pub fn mul_capped(a: i64, b: i64) -> (r: i64)
    requires
        0 <= a,
        0 <= b,
    ensures
        r == (if scale_down(a as int, b as int) > MONEY_CAP {
            MONEY_CAP as int
        } else {
            scale_down(a as int, b as int)
        }),
        0 <= r <= MONEY_CAP,
{
    proof {
        lemma_i64_product_fits(a as int, b as int);
    }
    let p: i128 = (a as i128) * (b as i128);
    proof {
        vstd::arithmetic::div_mod::lemma_div_pos_is_pos(p as int, RATE_SCALE as int);
    }
    let q: i128 = p / (RATE_SCALE as i128);
    if q > MONEY_CAP as i128 {
        MONEY_CAP
    } else {
        q as i64
    }
}

/// The product of two non-negative machine words fits a double-width word.
pub proof fn lemma_i64_product_fits(a: int, b: int) by (nonlinear_arith)
    requires
        0 <= a <= i64::MAX,
        0 <= b <= i64::MAX,
    ensures
        0 <= a * b <= i64::MAX as int * i64::MAX as int,
{
}

/// Multiply two probabilities (scaled values in [0, RATE_SCALE]); the result
/// is another probability no larger than either factor.
pub fn mul_rate_probs(a: i64, b: i64) -> (r: i64)
    requires
        0 <= a <= RATE_SCALE,
        0 <= b <= RATE_SCALE,
    ensures
        r == scale_down(a as int, b as int),
        0 <= r <= a,
        r <= b,
        r <= RATE_SCALE,
{
    proof {
        lemma_mul_in_square(a as int, b as int);
        lemma_scale_shrink(a as int, b as int);
        lemma_scale_shrink(b as int, a as int);
        vstd::arithmetic::mul::lemma_mul_is_commutative(a as int, b as int);
    }
    mul_rate(a, b)
}

/// A fixed-point power with at least one factor never exceeds its base.
pub proof fn lemma_pow_fx_le_base(x: int, n: nat)
    requires
        0 <= x <= RATE_SCALE,
        n >= 1,
    ensures
        spec_pow_fx(x, n) <= x,
    decreases n,
{
    if n == 1 {
        vstd::arithmetic::div_mod::lemma_div_multiples_vanish(x, RATE_SCALE as int);
        assert(spec_pow_fx(x, 1) == scale_down(RATE_SCALE as int, x));
        assert(RATE_SCALE as int * x == x * RATE_SCALE as int)
            by (nonlinear_arith);
    } else {
        lemma_pow_fx_le_base(x, (n - 1) as nat);
        lemma_pow_fx_bounds(x, (n - 1) as nat);
        lemma_scale_shrink(spec_pow_fx(x, (n - 1) as nat), x);
    }
}

/// Truncating division of a scaled value by a positive small integer.
pub fn div_small(a: i64, d: i64) -> (r: i64)
    requires
        -(i64::MAX as int) <= a,
        0 < d,
    ensures
        r == div_trunc(a as int, d as int),
        a >= 0 ==> 0 <= r <= a,
        a < 0 ==> a <= r <= 0,
{
    if a >= 0 {
        proof {
            vstd::arithmetic::div_mod::lemma_div_pos_is_pos(a as int, d as int);
            vstd::arithmetic::div_mod::lemma_div_is_ordered(a as int, a as int, d as int);
            vstd::arithmetic::div_mod::lemma_div_nonincreasing(a as int, d as int);
        }
        a / d
    } else {
        proof {
            vstd::arithmetic::div_mod::lemma_div_pos_is_pos(-(a as int), d as int);
            vstd::arithmetic::div_mod::lemma_div_nonincreasing(-(a as int), d as int);
        }
        -((-a) / d)
    }
}

/// The product of two signed values of at most a hundred units fits the
/// multiplier's range.
pub proof fn lemma_signed_product_fits(a: int, b: int) by (nonlinear_arith)
    requires
        abs_i(a) <= 100 * RATE_SCALE,
        abs_i(b) <= 100 * RATE_SCALE,
    ensures
        -(i64::MAX as int * RATE_SCALE as int) <= a * b <= i64::MAX as int * RATE_SCALE as int,
{
}

/// The product of a money amount and a signed rate of at most ten units fits
/// the multiplier's range.
pub proof fn lemma_money_signed_fits(m: int, x: int) by (nonlinear_arith)
    requires
        0 <= m <= 4 * MONEY_CAP,
        abs_i(x) <= 10 * RATE_SCALE,
    ensures
        -(i64::MAX as int * RATE_SCALE as int) <= m * x <= i64::MAX as int * RATE_SCALE as int,
{
}

/// Proportional share: `pool * rate / sum`, for a rate that is part of the sum.
pub open spec fn spec_prorate(pool: int, rate: int, sum: int) -> int {
    (pool * rate) / sum
}

/// Allocate a non-negative pool proportionally to one of the rates summed in
/// `sum`; the share never exceeds the pool.
pub fn prorate(pool: i64, rate: i64, sum: i64) -> (r: i64)
    requires
        0 <= pool,
        0 <= rate <= sum,
        0 < sum,
    ensures
        r == spec_prorate(pool as int, rate as int, sum as int),
        0 <= r <= pool,
{
    proof {
        lemma_i64_product_fits(pool as int, rate as int);
        vstd::arithmetic::div_mod::lemma_div_pos_is_pos(pool as int * rate as int, sum as int);
        vstd::arithmetic::mul::lemma_mul_inequality(rate as int, sum as int, pool as int);
        vstd::arithmetic::mul::lemma_mul_is_commutative(rate as int, pool as int);
        vstd::arithmetic::mul::lemma_mul_is_commutative(sum as int, pool as int);
        vstd::arithmetic::div_mod::lemma_multiply_divide_le(
            pool as int * rate as int,
            sum as int,
            pool as int,
        );
    }
    ((pool as i128) * (rate as i128) / (sum as i128)) as i64
}

/// A growth factor's fractional power `x^(m/12)` for `x` up to two units,
/// through the reciprocal above one unit, capped at four units.
pub open spec fn spec_frac_pow_12(x: int, m: nat) -> int {
    if x <= RATE_SCALE {
        spec_root_up(spec_pow_fx(x, m), 12)
    } else {
        let sq = RATE_SCALE as int * RATE_SCALE as int;
        let r = spec_root_up(spec_pow_fx(sq / x, m), 12);
        if r <= 0 {
            4 * RATE_SCALE as int
        } else if sq / r > 4 * RATE_SCALE {
            4 * RATE_SCALE as int
        } else {
            sq / r
        }
    }
}

/// Fractional power `x^(m/12)` of a factor in [0, 2] units.
pub fn frac_pow_12(x: i64, m: u32) -> (r: i64)
    requires
        0 <= x <= 2 * RATE_SCALE,
    ensures
        r == spec_frac_pow_12(x as int, m as nat),
        0 <= r <= 4 * RATE_SCALE,
{
    if x <= RATE_SCALE {
        let p = pow_fx(x, m);
        root_fx(p, 12)
    } else {
        let sq: i128 = 1_000_000_000_000_000_000;
        proof {
            assert(sq as int == RATE_SCALE as int * RATE_SCALE as int);
            vstd::arithmetic::div_mod::lemma_div_pos_is_pos(sq as int, x as int);
            vstd::arithmetic::div_mod::lemma_div_is_ordered_by_denominator(
                sq as int,
                RATE_SCALE as int,
                x as int,
            );
            vstd::arithmetic::div_mod::lemma_div_multiples_vanish(
                RATE_SCALE as int,
                RATE_SCALE as int,
            );
        }
        let inv: i64 = (sq / (x as i128)) as i64;
        let p = pow_fx(inv, m);
        let r = root_fx(p, 12);
        if r <= 0 {
            4 * RATE_SCALE
        } else {
            proof {
                vstd::arithmetic::div_mod::lemma_div_pos_is_pos(sq as int, r as int);
            }
            let q: i128 = sq / (r as i128);
            if q > (4 * RATE_SCALE) as i128 {
                4 * RATE_SCALE
            } else {
                q as i64
            }
        }
    }
}

} // verus!
