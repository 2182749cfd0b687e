use actuarial_system::product::{SurrenderChargeSchedule, PayoutFactors, GlwbFeatures};

// Rates are scaled by 1_000_000_000.

#[test]
fn test_surrender_charges() {
    let sc = SurrenderChargeSchedule::default_10_year();

    assert_eq!(sc.get_rate(1), 90_000_000);
    assert_eq!(sc.get_rate(5), 60_000_000);
    assert_eq!(sc.get_rate(10), 10_000_000);
    assert_eq!(sc.get_rate(11), 0);
    assert_eq!(sc.get_rate(20), 0);
}

#[test]
fn test_payout_factors() {
    let pf = PayoutFactors::default_bands();

    assert_eq!(pf.get_single_life(52), 46_000_000);
    assert_eq!(pf.get_single_life(65), 55_000_000);
    assert_eq!(pf.get_single_life(77), 70_000_000);
    assert_eq!(pf.get_single_life(90), 90_000_000);
}

#[test]
fn test_glwb_rollup() {
    let glwb = GlwbFeatures::default_features();

    // During the rollup period, not activated: 1 + 0.10/12.
    let factor = glwb.monthly_rollup_factor(1, false);
    assert_eq!(factor, 1_000_000_000 + 100_000_000 / 12);

    // After income activation: no rollup.
    assert_eq!(glwb.monthly_rollup_factor(1, true), 1_000_000_000);

    // After the rollup period: no rollup.
    assert_eq!(glwb.monthly_rollup_factor(11, false), 1_000_000_000);
}

#[test]
fn test_compound_rollup_factor() {
    let mut glwb = GlwbFeatures::default_features();
    glwb.simple_rollup = false;
    // (1 + 0.10)^(1/12) is about 1.0079741.
    let factor = glwb.monthly_rollup_factor(1, false);
    assert!((factor - 1_007_974_100i64).abs() < 100_000, "factor {}", factor);
}

#[test]
fn test_sc_period_years() {
    let sc = SurrenderChargeSchedule::default_10_year();
    assert_eq!(sc.sc_period_years(), 10);
    assert!(sc.in_sc_period(10));
    assert!(!sc.in_sc_period(11));
}
