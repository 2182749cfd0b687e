use actuarial_system::pwd::{RmdTable, FreeWithdrawalUtilization, PwdAssumptions};
use actuarial_system::policy::QualStatus;

// Rates are scaled by 1_000_000_000.

#[test]
fn test_rmd_rates() {
    let rmd = RmdTable::default_table();

    // Below the distribution age.
    assert_eq!(rmd.get_rate(70), 0);

    // At distribution ages.
    assert!((rmd.get_rate(73) - 37_700_000i64).abs() < 1_000_000);
    assert!((rmd.get_rate(77) - 43_700_000i64).abs() < 1_000_000);
    assert!((rmd.get_rate(85) - 62_500_000i64).abs() < 1_000_000);
}

#[test]
fn test_free_utilization() {
    let util = FreeWithdrawalUtilization::default_curve();

    assert_eq!(util.get_rate(1), 100_000_000);
    assert_eq!(util.get_rate(2), 200_000_000);
    assert_eq!(util.get_rate(3), 300_000_000);
    assert_eq!(util.get_rate(4), 400_000_000);
    assert_eq!(util.get_rate(10), 400_000_000);
}

#[test]
fn test_pwd_assumptions() {
    let pwd = PwdAssumptions::default_assumptions();

    // Year 1: no withdrawals at all.
    let rate = pwd.annual_pwd_rate(1, 60, QualStatus::N, false);
    assert_eq!(rate, 0);

    // Year 2, age 60, non-qualified: 5% free at 20% utilisation = 1%.
    let rate2 = pwd.annual_pwd_rate(2, 60, QualStatus::N, false);
    assert!((rate2 - 10_000_000i64).abs() < 1_000_000);

    // Year 4, age 77, qualified: the distribution rate 0.0437 is under the 5%
    // free rate, so 5% * 40% = 2%.
    let rate_q = pwd.annual_pwd_rate(4, 77, QualStatus::Q, false);
    assert!((rate_q - 20_000_000i64).abs() < 1_000_000);

    // Year 4, age 85, qualified: 6.25% beats 5%; 6.25% * 40% = 2.5%.
    let rate_rmd = pwd.annual_pwd_rate(4, 85, QualStatus::Q, false);
    assert!((rate_rmd - 25_000_000i64).abs() < 1_000_000);

    // After income activation: nothing.
    let rate_activated = pwd.annual_pwd_rate(4, 77, QualStatus::Q, true);
    assert_eq!(rate_activated, 0);

    // Monthly conversion: annual 2.5% gives about 0.00211 monthly.
    let monthly = pwd.monthly_pwd_rate(4, 85, QualStatus::Q, false);
    assert!((monthly - 2_110_000i64).abs() < 100_000, "monthly {}", monthly);
}

#[test]
fn test_fpw_pct_rules() {
    let pwd = PwdAssumptions::default_assumptions();
    // Zero in policy year one regardless.
    assert_eq!(pwd.get_fpw_pct(1, 85, QualStatus::Q), 0);
    // Non-qualified: the base free percentage.
    assert_eq!(pwd.get_fpw_pct(4, 85, QualStatus::N), 50_000_000);
    // Qualified at 85: the distribution rate beats the base.
    assert_eq!(pwd.get_fpw_pct(4, 85, QualStatus::Q), 62_500_000);
}
