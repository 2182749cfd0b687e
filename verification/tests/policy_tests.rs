use actuarial_system::policy::{
    Policy, QualStatus, Gender, CreditingStrategy, RollupType, BenefitBaseBucket,
    default_glwb_start_year,
};

// Money is in cents; rates and lives counts are scaled by 1_000_000_000.

fn test_policy() -> Policy {
    Policy::new(
        1,
        QualStatus::Q,
        77,
        Gender::Male,
        2_717_816,      // 27,178.16 in cents
        39_000_000,     // 0.039 lives
        2_090_628,      // 20,906.28 in cents
        CreditingStrategy::Indexed,
        10,
        47_500_000,     // 4.75%
        10_000_000,     // 1%
        300_000_000,    // 30%
        RollupType::Simple,
    )
}

#[test]
fn test_benefit_base_bucket() {
    assert_eq!(BenefitBaseBucket::from_amount(2_500_000), BenefitBaseBucket::Under50k);
    assert_eq!(BenefitBaseBucket::from_amount(7_500_000), BenefitBaseBucket::From50kTo100k);
    assert_eq!(BenefitBaseBucket::from_amount(15_000_000), BenefitBaseBucket::From100kTo200k);
    assert_eq!(BenefitBaseBucket::from_amount(30_000_000), BenefitBaseBucket::From200kTo500k);
    assert_eq!(BenefitBaseBucket::from_amount(100_000_000), BenefitBaseBucket::Over500k);
}

#[test]
fn test_policy_timing() {
    let policy = test_policy();

    // Month 1: policy year 1, month 1
    assert_eq!(policy.policy_year(1), 1);
    assert_eq!(policy.month_in_policy_year(1), 1);
    assert_eq!(policy.attained_age(1), 77);

    // Month 12: policy year 1, month 12, still age 77
    assert_eq!(policy.policy_year(12), 1);
    assert_eq!(policy.month_in_policy_year(12), 12);
    assert_eq!(policy.attained_age(12), 77);

    // Month 13: policy year 2, month 1
    assert_eq!(policy.policy_year(13), 2);
    assert_eq!(policy.month_in_policy_year(13), 1);
    assert_eq!(policy.attained_age(13), 78);
}

#[test]
fn test_policy_year_boundaries() {
    // At duration 0: month 1 is (year 1, month 1); month 12 is (1, 12);
    // month 13 is (2, 1).
    let policy = test_policy();
    assert_eq!(policy.duration_months, 0);
    assert_eq!(
        (policy.policy_year(1), policy.month_in_policy_year(1)),
        (1, 1)
    );
    assert_eq!(
        (policy.policy_year(12), policy.month_in_policy_year(12)),
        (1, 12)
    );
    assert_eq!(
        (policy.policy_year(13), policy.month_in_policy_year(13)),
        (2, 1)
    );
}

#[test]
fn test_qual_status_and_sentinel() {
    assert!(QualStatus::Q.is_qualified());
    assert!(!QualStatus::N.is_qualified());
    assert_eq!(default_glwb_start_year(), 99);
    assert_eq!(BenefitBaseBucket::Under50k.as_str(), "[0, 50000)");
    assert_eq!(BenefitBaseBucket::Over500k.as_str(), "[500000, Inf)");
}

#[test]
fn test_bucket_from_per_life_base() {
    // The bucket uses the per-life benefit base: 27,178.16 over 0.039 lives is
    // about 696,876 per life, the top bucket.
    let policy = test_policy();
    assert_eq!(policy.benefit_base_bucket, BenefitBaseBucket::Over500k);
}

#[test]
fn test_should_activate_income() {
    let policy = Policy::with_glwb_start(
        2,
        QualStatus::N,
        65,
        Gender::Female,
        10_000_000,
        1_000_000_000,
        10_000_000,
        CreditingStrategy::Fixed,
        10,
        47_500_000,
        10_000_000,
        300_000_000,
        RollupType::Simple,
        3,
    );
    assert!(!policy.should_activate_income(24)); // year 2
    assert!(policy.should_activate_income(25)); // year 3
}
