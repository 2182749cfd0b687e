use actuarial_system::mortality::{
    MortalityTable, MonthlyConversion, default_age_factors, graded_age_factors,
};
use actuarial_system::policy::Gender;

// Rates and factors are scaled by 1_000_000_000.

#[test]
fn test_baseline_annual_rate() {
    let table = MortalityTable::standard_table();

    // Age 77 male: base 0.026155, factor 0.6 + (17/30) * 0.4
    let baseline = table.baseline_annual_rate(77, Gender::Male);
    let factor = 600_000_000 + 17 * 40_000_000 / 3;
    let expected = 26_155_000i64 * factor / 1_000_000_000;
    assert!((baseline - expected).abs() < 1_000);
    assert!((baseline - 21_600_000).abs() < 1_000_000); // about 0.0216
}

#[test]
fn test_age_factor_grading() {
    let factors = default_age_factors();

    assert_eq!(factors[50], 600_000_000);
    assert_eq!(factors[60], 600_000_000);
    assert!((factors[75] - 800_000_000i64).abs() < 10_000_000); // 0.6 + (15/30)*0.4 = 0.8
    assert_eq!(factors[90], 1_000_000_000);
    assert_eq!(factors[100], 1_000_000_000);
}

#[test]
fn test_excel_mortality_formula() {
    let table = MortalityTable::standard_table();

    // Month 1, age 77 male: about 0.0014907 monthly.
    let monthly = table.monthly_rate(77, Gender::Male, 1);
    assert!(
        (monthly - 1_490_700i64).abs() < 10_000,
        "Month 1 mortality mismatch: {}",
        monthly
    );

    // Month 2: about 0.0014888.
    let monthly_2 = table.monthly_rate(77, Gender::Male, 2);
    assert!(
        (monthly_2 - 1_488_800i64).abs() < 10_000,
        "Month 2 mortality mismatch: {}",
        monthly_2
    );
}

#[test]
fn test_mortality_improvement() {
    let table = MortalityTable::standard_table();

    let rate_month_1 = table.monthly_rate(77, Gender::Male, 1);
    let rate_month_13 = table.monthly_rate(77, Gender::Male, 13);

    // Rate should decrease with improvement.
    assert!(rate_month_13 < rate_month_1);

    // Over 12 months, the ratio should be about (1 - 0.015) = 0.985.
    let ratio = (rate_month_13 as i128) * 1_000_000_000 / (rate_month_1 as i128);
    assert!(
        (ratio - 985_000_000).abs() < 2_000_000,
        "Improvement ratio: {}",
        ratio
    );
}

#[test]
fn test_custom_age_factors() {
    let mut table = MortalityTable::standard_table();

    // Scale all factors by 1.1.
    table.scale_age_factors(1_100_000_000);

    let new_factor = table.get_age_factor(60);
    assert!((new_factor - 660_000_000i64).abs() < 1_000); // 0.6 * 1.1 = 0.66
}

#[test]
fn test_graded_factors() {
    let factors = graded_age_factors(50, 80, 500_000_000, 1_000_000_000);

    assert_eq!(factors[50], 500_000_000);
    assert!((factors[65] - 750_000_000i64).abs() < 10_000_000); // halfway
    assert_eq!(factors[80], 1_000_000_000);
    assert_eq!(factors[90], 1_000_000_000);
}

#[test]
fn test_age_past_table_end() {
    // Beyond the table's last age, the monthly rate is a twelfth of a unit.
    let table = MortalityTable::standard_table();
    let monthly = table.monthly_rate(121, Gender::Female, 1);
    assert_eq!(monthly, 1_000_000_000 / 12);
}

#[test]
fn test_simple_division_conversion() {
    let mut table = MortalityTable::standard_table();
    table.set_conversion_method(MonthlyConversion::SimpleDivision);
    let simple = table.monthly_rate(77, Gender::Male, 1);
    // The standard conversion at this rate is close to division by twelve.
    assert!((simple - 1_490_700i64).abs() < 15_000);
}
