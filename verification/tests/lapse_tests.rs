use actuarial_system::lapse::{LapseModel, calculate_itm_ness};
use actuarial_system::policy::BenefitBaseBucket;

// Rates and linear predictor values are scaled by 1_000_000_000; money is in
// cents.

#[test]
fn test_month_1_zero_lapse() {
    let model = LapseModel::default_predictive_model();

    let rate = model.monthly_lapse_rate(1, 1, false, 1_300_000_000);
    assert_eq!(rate, 0, "Month 1 should have zero lapse");
}

#[test]
fn test_lapse_month_2() {
    let model = LapseModel::default_predictive_model();

    // ITM of 27,178.16 over 20,906.28 is about 1.30; the cell's per-life
    // benefit base puts it in the top bucket, which shares the
    // 200,000-and-over coefficients the per-year floors are computed for.
    let itm = calculate_itm_ness(2_717_816, 2_090_628);
    let rate = model.monthly_lapse_rate_with_skew(
        2,
        1,
        2,
        false,
        itm,
        10,
        BenefitBaseBucket::Over500k,
    );

    // The reference shows about 0.000189 for month 2.
    assert!(
        (rate - 189_000i64).abs() < 50_000,
        "Month 2 lapse mismatch: {} vs 189_000",
        rate
    );
}

#[test]
fn test_base_component() {
    let model = LapseModel::default_predictive_model();

    // The reference shows about -5.7448 for year 1, income off, in the
    // 200,000-and-over bucket the per-year floors are computed for (its
    // bucket adjustment is zero).
    let base = model.base_component_with_bucket(
        1,
        false,
        BenefitBaseBucket::From200kTo500k,
        10,
    );
    assert!(
        (base - (-5_744_800_000i64)).abs() < 10_000_000,
        "Base component mismatch: {} vs -5_744_800_000",
        base
    );

    // The under-50,000 reference bucket sits a positive bucket shift above
    // it: its full year-one duration terms come to about +0.732.
    let base_low = model.base_component(1, false);
    assert!(
        (base_low - (-5_012_800_000i64)).abs() < 10_000_000,
        "Reference-bucket base mismatch: {}",
        base_low
    );
}

#[test]
fn test_dynamic_component() {
    let model = LapseModel::default_predictive_model();

    // ITM of 1.30: the reference shows about -0.347 with income off.
    let dynamic = model.dynamic_component(1_300_000_000, false);
    assert!(
        (dynamic - (-347_000_000i64)).abs() < 10_000_000,
        "Dynamic component mismatch: {} vs -347_000_000",
        dynamic
    );
}

#[test]
fn test_shock_year_higher_lapse() {
    let model = LapseModel::default_predictive_model();

    // Year 10 versus year 11 (the shock year).
    let rate_10 = model.monthly_lapse_rate(120, 10, false, 1_300_000_000);
    let rate_11 = model.monthly_lapse_rate(132, 11, false, 1_300_000_000);

    assert!(
        rate_11 > rate_10,
        "Shock year (11) should have higher lapse than year 10"
    );
}

#[test]
fn test_shock_year_skewed_months() {
    // With the shock-year skew, month 1 of policy year 11 carries far more of
    // the annual probability than month 12 of year 10.
    let model = LapseModel::default_predictive_model();
    let rate_10_12 = model.monthly_lapse_rate_with_skew(
        120,
        10,
        12,
        false,
        1_300_000_000,
        10,
        BenefitBaseBucket::From100kTo200k,
    );
    let rate_11_1 = model.monthly_lapse_rate_with_skew(
        121,
        11,
        1,
        false,
        1_300_000_000,
        10,
        BenefitBaseBucket::From100kTo200k,
    );
    assert!(rate_11_1 > rate_10_12);
}

#[test]
fn test_itm_ness() {
    assert_eq!(calculate_itm_ness(12_000_000, 10_000_000), 1_200_000_000);
    assert_eq!(calculate_itm_ness(8_000_000, 10_000_000), 800_000_000);
}

#[test]
fn test_itm_ness_exhausted_account() {
    // On an exhausted account the moneyness is one by convention.
    assert_eq!(calculate_itm_ness(12_000_000, 0), 1_000_000_000);
    assert_eq!(calculate_itm_ness(12_000_000, -5), 1_000_000_000);
}

#[test]
fn test_skew_numerators_sum_to_year() {
    // The skew numerators over 180: in the shock year 72 + 54 + 36 + 9 * 2,
    // in any other year 12 * 15 -- both a full year.
    let model = LapseModel::default_predictive_model();
    let mut shock_total: u32 = 0;
    let mut normal_total: u32 = 0;
    let mut month: u32 = 1;
    while month <= 12 {
        shock_total += model.get_skew(11, month, 10);
        normal_total += model.get_skew(5, month, 10);
        month += 1;
    }
    assert_eq!(shock_total, 180);
    assert_eq!(normal_total, 180);
    assert_eq!(model.get_skew(11, 1, 10), 72);
    assert_eq!(model.get_skew(11, 2, 10), 54);
    assert_eq!(model.get_skew(11, 3, 10), 36);
    assert_eq!(model.get_skew(11, 7, 10), 2);
}

#[test]
fn test_exhausted_account_no_lapse() {
    let model = LapseModel::default_predictive_model();
    let rate = model.monthly_lapse_rate(5, 1, false, 0);
    assert_eq!(rate, 0);
}
