use actuarial_system::assumptions::Assumptions;
use actuarial_system::policy::{Policy, QualStatus, Gender, CreditingStrategy, RollupType};
use actuarial_system::reserves::types::{
    PolicyState, ReserveProjectionState, ReserveComponents, ReserveMethod,
    ReserveProjectionConfig,
};
use actuarial_system::reserves::discount::{DiscountCurve, PVCalculator};
use actuarial_system::reserves::cache::{
    CachedReservePath, ReserveCache, RevalidationCriteria,
};
use actuarial_system::reserves::benefits::BenefitCalculator;
use actuarial_system::reserves::carvm::{CARVMCalculator, CARVMConfig, CARVMMethod};

// Money is in cents; rates are scaled by 1_000_000_000.

fn test_policy() -> Policy {
    Policy::new(
        2800,
        QualStatus::Q,
        65,
        Gender::Male,
        13_000_000,     // 130,000 benefit base
        1_000_000_000,  // one life
        10_000_000,     // 100,000 premium
        CreditingStrategy::Indexed,
        10,
        47_500_000,
        10_000_000,
        300_000_000,
        RollupType::Simple,
    )
}

fn quick_config() -> CARVMConfig {
    CARVMConfig {
        method: CARVMMethod::BruteForce,
        max_projection_months: 120,
        use_caching: false,
        revalidation_frequency: 12,
        revalidation_criteria: RevalidationCriteria::default_criteria(),
        max_deferral_years: 10,
    }
}

#[test]
fn test_policy_state_default() {
    assert_eq!(PolicyState::default(), PolicyState::Accumulation);
}

#[test]
fn test_reserve_projection_state_itm() {
    let state = ReserveProjectionState {
        month: 0,
        policy_state: PolicyState::Accumulation,
        account_value: 10_000_000,
        benefit_base: 13_000_000,
        cumulative_withdrawals: 0,
        remaining_free_amount: 1_000_000,
        survival_probability: 1_000_000_000,
        attained_age: 65,
        policy_year: 1,
    };

    assert_eq!(state.itm_ness(), 1_300_000_000);
}

#[test]
fn test_reserve_components_total() {
    let components = ReserveComponents {
        death_benefit_pv: 500_000,
        income_benefit_pv: 0,
        surrender_value_pv: 0,
        elective_benefit_pv: 9_500_000,
        free_pwd_pv: 0,
    };

    assert_eq!(components.total(), 10_000_000);
}

#[test]
fn test_reserve_method_default() {
    assert_eq!(ReserveMethod::default(), ReserveMethod::CARVM);
    let config = ReserveProjectionConfig::default();
    assert_eq!(config.max_projection_months, 768);
    assert_eq!(config.valuation_month, 0);
}

#[test]
fn test_single_rate_curve() {
    let curve = DiscountCurve::single_rate(50_000_000);
    assert_eq!(curve.valuation_rate, 50_000_000);
    assert!(curve.death_benefit_rate.is_none());
}

#[test]
fn test_discount_factors() {
    let curve = DiscountCurve::single_rate(60_000_000); // 6% annual

    let monthly_v = curve.elective_discount_factor();
    // 1 / (1 + 0.06/12) = 0.99502...
    assert!((monthly_v - 995_024_875i64).abs() < 1_000);

    let v_12 = curve.discount_to_month_elective(12);
    // (1 / 1.005)^12 is about 0.94191.
    assert!((v_12 - 941_905_000i64).abs() < 1_000_000);
}

#[test]
fn test_separate_death_rate() {
    let curve = DiscountCurve::with_death_benefit_rate(50_000_000, 40_000_000);

    let elective_v = curve.elective_discount_factor();
    let death_v = curve.death_benefit_discount_factor();

    // A lower rate discounts less.
    assert!(death_v > elective_v);
}

#[test]
fn test_pv_annuity() {
    // 100.00 a month for 12 months at 6% annual: about 1162.62.
    let pv = PVCalculator::pv_annuity_ordinary(10_000, 12, 60_000_000 / 12);
    assert!((pv - 116_262i64).abs() < 100, "pv {}", pv);
}

#[test]
fn test_cached_path_exhausted_account_is_stale() {
    // A cache entry solved on an exhausted account stores the moneyness cap,
    // so the staleness trigger always fires for such a cell.
    let cache = CachedReservePath::new(7, 0, 96, 5_000_000, 0, 13_000_000, 0, 0, 80_000_000);
    assert_eq!(cache.itm_at_solve, 1_000_000_000_000);

    let criteria = RevalidationCriteria::default_criteria();
    assert!(criteria.needs_revalidation(&cache, 1, 0, 13_000_000, 10).is_some());
}

#[test]
fn test_method_equivalence() {
    // Every configured method must agree with brute force on the gross
    // reserve and the chosen activation month.
    let policy = test_policy();
    let mut bf = CARVMCalculator::new(Assumptions::default_pricing(), quick_config());
    let mut dp_config = quick_config();
    dp_config.method = CARVMMethod::DynamicProgramming;
    let mut dp = CARVMCalculator::new(Assumptions::default_pricing(), dp_config);
    let mut hy_config = quick_config();
    hy_config.method = CARVMMethod::Hybrid;
    let mut hy = CARVMCalculator::new(Assumptions::default_pricing(), hy_config);

    let r_bf = bf.calculate_reserve(&policy, 0);
    let r_dp = dp.calculate_reserve(&policy, 0);
    let r_hy = hy.calculate_reserve(&policy, 0);
    assert_eq!(r_bf.gross_reserve, r_dp.gross_reserve);
    assert_eq!(r_bf.gross_reserve, r_hy.gross_reserve);
    assert_eq!(r_bf.optimal_activation_month, r_dp.optimal_activation_month);
    assert_eq!(r_bf.optimal_activation_month, r_hy.optimal_activation_month);
}

#[test]
fn test_cached_reserve_path_creation() {
    let cache = CachedReservePath::new(
        12345,
        0,
        96,
        5_000_000,
        10_000_000,
        13_000_000,
        100_000,
        500_000,
        80_000_000,
    );

    assert_eq!(cache.policy_id, 12345);
    assert_eq!(cache.optimal_activation_month, 96);
    assert_eq!(cache.itm_at_solve, 1_300_000_000);
}

#[test]
fn test_approaching_activation() {
    let cache = CachedReservePath::new(
        1, 0, 96, 5_000_000, 10_000_000, 13_000_000, 100_000, 500_000, 80_000_000,
    );

    // Month 90: six months away, approaching.
    assert!(cache.approaching_activation(90, 6));

    // Month 80: sixteen months away, not approaching.
    assert!(!cache.approaching_activation(80, 6));

    // Month 100: past activation.
    assert!(cache.past_optimal_activation(100));
}

#[test]
fn test_revalidation_criteria() {
    let criteria = RevalidationCriteria::default_criteria();
    let cache = CachedReservePath::new(
        1, 0, 96, 5_000_000, 10_000_000, 13_000_000, 100_000, 500_000, 80_000_000,
    );

    // Thirteen months elapsed: the periodic trigger fires.
    assert!(criteria
        .needs_revalidation(&cache, 13, 10_000_000, 13_000_000, 10)
        .is_some());

    // Month six with unchanged balances: nothing fires.
    assert!(criteria
        .needs_revalidation(&cache, 6, 10_000_000, 13_000_000, 10)
        .is_none());
}

#[test]
fn test_reserve_cache() {
    let mut cache = ReserveCache::new();

    let path = CachedReservePath::new(
        1, 0, 96, 5_000_000, 10_000_000, 13_000_000, 100_000, 500_000, 80_000_000,
    );
    cache.insert(path);

    assert_eq!(cache.len(), 1);
    assert!(cache.get(1).is_some());
    assert!(cache.get(999).is_none());

    cache.clear();
    assert!(cache.is_empty());
}

#[test]
fn test_carvm_calculator_creation() {
    let assumptions = Assumptions::default_pricing();
    let config = CARVMConfig::default_config();
    let calc = CARVMCalculator::new(assumptions, config);

    assert!(calc.config.use_caching);
}

#[test]
fn test_carvm_reserve_calculation() {
    let assumptions = Assumptions::default_pricing();
    let mut calc = CARVMCalculator::new(assumptions, quick_config());
    let policy = test_policy();

    let result = calc.calculate_reserve(&policy, 0);

    // The reserve is positive, and the surrender value sits below the
    // starting account value.
    assert!(result.gross_reserve > 0);
    assert!(result.csv_at_valuation < policy.starting_av());
}

#[test]
fn test_cache_behavior() {
    let assumptions = Assumptions::default_pricing();
    let mut config = quick_config();
    config.max_projection_months = 60;
    config.max_deferral_years = 5;
    config.use_caching = true;

    let mut calc = CARVMCalculator::new(assumptions, config);
    let policy = test_policy();

    // First call: a miss.
    let _result1 = calc.calculate_reserve(&policy, 0);
    assert_eq!(calc.cache.cache_misses, 1);
}

#[test]
fn test_csv_is_floor() {
    let assumptions = Assumptions::default_pricing();
    let mut calc = CARVMCalculator::new(assumptions, quick_config());
    let policy = test_policy();

    let result = calc.calculate_reserve(&policy, 0);

    assert!(
        result.gross_reserve >= result.csv_at_valuation,
        "Reserve {} should be >= CSV {}",
        result.gross_reserve,
        result.csv_at_valuation
    );
}

#[test]
fn test_reserve_components_sum() {
    let assumptions = Assumptions::default_pricing();
    let mut calc = CARVMCalculator::new(assumptions, quick_config());
    let policy = test_policy();

    let result = calc.calculate_reserve(&policy, 0);

    // When the surrender value is not binding, the death and elective parts
    // sum to the gross reserve.
    if !result.is_csv_binding() {
        let components_sum = result.reserve_components.death_benefit_pv
            + result.reserve_components.elective_benefit_pv;
        assert!(
            (components_sum - result.gross_reserve).abs() <= 1,
            "Components sum {} should equal gross reserve {}",
            components_sum,
            result.gross_reserve
        );
    }
}

#[test]
fn test_different_ages() {
    let assumptions = Assumptions::default_pricing();
    let mut calc = CARVMCalculator::new(assumptions, quick_config());

    let policy_young = Policy::new(
        1, QualStatus::Q, 55, Gender::Male, 13_000_000, 1_000_000_000, 10_000_000,
        CreditingStrategy::Indexed, 10, 47_500_000, 10_000_000, 300_000_000, RollupType::Simple,
    );
    let policy_old = Policy::new(
        2, QualStatus::Q, 70, Gender::Male, 13_000_000, 1_000_000_000, 10_000_000,
        CreditingStrategy::Indexed, 10, 47_500_000, 10_000_000, 300_000_000, RollupType::Simple,
    );

    let result_young = calc.calculate_reserve(&policy_young, 0);
    let result_old = calc.calculate_reserve(&policy_old, 0);

    assert!(result_young.gross_reserve > 0);
    assert!(result_old.gross_reserve > 0);

    if !result_young.is_csv_binding() && !result_old.is_csv_binding() {
        assert!(
            result_old.optimal_activation_month <= result_young.optimal_activation_month,
            "Older policyholder (month {}) should activate no later than younger ({})",
            result_old.optimal_activation_month,
            result_young.optimal_activation_month
        );
    }
}

#[test]
fn test_high_itm_vs_low_itm() {
    let assumptions = Assumptions::default_pricing();
    let mut calc = CARVMCalculator::new(assumptions, quick_config());

    let policy_low_itm = Policy::new(
        1, QualStatus::Q, 65, Gender::Male, 10_000_000, 1_000_000_000, 10_000_000,
        CreditingStrategy::Indexed, 10, 47_500_000, 10_000_000, 300_000_000, RollupType::Simple,
    );
    let policy_high_itm = Policy::new(
        2, QualStatus::Q, 65, Gender::Male, 15_000_000, 1_000_000_000, 10_000_000,
        CreditingStrategy::Indexed, 10, 47_500_000, 10_000_000, 300_000_000, RollupType::Simple,
    );

    let result_low = calc.calculate_reserve(&policy_low_itm, 0);
    let result_high = calc.calculate_reserve(&policy_high_itm, 0);

    assert!(result_low.gross_reserve > 0);
    assert!(result_high.gross_reserve > 0);

    assert!(
        result_high.gross_reserve >= result_low.gross_reserve,
        "High ITM reserve {} should be >= low ITM reserve {}",
        result_high.gross_reserve,
        result_low.gross_reserve
    );
}

#[test]
fn test_optimal_activation_within_bounds() {
    let assumptions = Assumptions::default_pricing();
    let mut calc = CARVMCalculator::new(assumptions, quick_config());
    let policy = test_policy();

    let result = calc.calculate_reserve(&policy, 0);

    if result.optimal_activation_month != u32::MAX {
        assert!(
            result.optimal_activation_month <= 10 * 12,
            "Optimal activation {} should be within the deferral limit",
            result.optimal_activation_month
        );
    }
}

#[test]
fn test_reserve_at_later_months() {
    let assumptions = Assumptions::default_pricing();
    let mut config = quick_config();
    config.use_caching = true;

    let mut calc = CARVMCalculator::new(assumptions, config);
    let policy = test_policy();

    let result_0 = calc.calculate_reserve(&policy, 0);
    let result_12 = calc.calculate_reserve(&policy, 12);

    assert!(result_0.gross_reserve > 0);
    assert!(result_12.gross_reserve > 0);
}

#[test]
fn test_resolve_after_clear_is_identical() {
    // Running the calculator twice at the same month with the cache cleared
    // gives an identical result.
    let assumptions = Assumptions::default_pricing();
    let mut config = quick_config();
    config.use_caching = true;
    let mut calc = CARVMCalculator::new(assumptions, config);
    let policy = test_policy();

    let first = calc.calculate_reserve(&policy, 0);
    calc.clear_cache();
    let second = calc.calculate_reserve(&policy, 0);
    assert_eq!(first.gross_reserve, second.gross_reserve);
    assert_eq!(first.optimal_activation_month, second.optimal_activation_month);
    assert_eq!(first.csv_at_valuation, second.csv_at_valuation);
}

#[test]
fn test_roll_forward_within_tolerance() {
    // A cached roll-forward to a later month stays within the advertised
    // revalidation tolerance of a forced full re-solve, or a revalidation
    // already fired and the two agree exactly.
    let assumptions = Assumptions::default_pricing();
    let mut config = quick_config();
    config.use_caching = true;
    let mut calc = CARVMCalculator::new(assumptions, config);
    let policy = test_policy();

    let _at_zero = calc.calculate_reserve(&policy, 0);
    let rolled = calc.calculate_reserve(&policy, 3);

    let mut fresh = CARVMCalculator::new(Assumptions::default_pricing(), quick_config());
    let solved = fresh.calculate_reserve(&policy, 3);

    let diff = (rolled.gross_reserve - solved.gross_reserve).abs();
    // 15% of the full solve, the wider of the two advertised thresholds.
    let tolerance = (solved.gross_reserve as i128) * 150_000_000 / 1_000_000_000;
    assert!(
        (diff as i128) <= tolerance,
        "rolled {} vs solved {}",
        rolled.gross_reserve,
        solved.gross_reserve
    );
}

#[test]
fn test_csv_calculation() {
    let assumptions = Assumptions::default_pricing();
    let policy = test_policy();
    let calc = BenefitCalculator::from_policy(&assumptions, &policy);

    // In year one the charge is 9%: 100,000.00 becomes 91,000.00, under the
    // account value but not far under.
    let csv = calc.cash_surrender_value(&policy, 1, 10_000_000);
    assert!(csv < 10_000_000);
    assert!(csv > 8_500_000);
    assert_eq!(csv, 9_100_000);
}

#[test]
fn test_death_benefit_pv_positive() {
    let assumptions = Assumptions::default_pricing();
    let policy = test_policy();
    let calc = BenefitCalculator::from_policy(&assumptions, &policy);

    let pv = calc.death_benefit_pv(&policy, 0, None, 10_000_000, 13_000_000);
    assert!(pv > 0);
    // A mortality-weighted stream of the account value cannot exceed it by
    // much; it stays well under the starting value here.
    assert!(pv < 10_000_000);
}
