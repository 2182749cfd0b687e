use actuarial_system::assumptions::Assumptions;
use actuarial_system::engine::{
    ProjectionEngine, ProjectionConfig, CreditingApproach, HedgeParams, aggregate_net_cashflows,
};
use actuarial_system::mortality::{MortalityTable, MonthlyConversion, flat_age_factors};
use actuarial_system::policy::{Policy, QualStatus, Gender, CreditingStrategy, RollupType};
use actuarial_system::pwd::{PwdAssumptions, RmdTable, FreeWithdrawalUtilization};
use actuarial_system::scenario::ScenarioRunner;

// Money is in cents; rates and lives are scaled by 1_000_000_000.

fn test_policy() -> Policy {
    Policy::new(
        2800,
        QualStatus::Q,
        77,
        Gender::Male,
        2_717_816,
        39_000_000,
        2_090_628,
        CreditingStrategy::Indexed,
        10,
        47_500_000,
        10_000_000,
        300_000_000,
        RollupType::Simple,
    )
}

fn default_config(months: u32) -> ProjectionConfig {
    ProjectionConfig {
        projection_months: months,
        crediting: CreditingApproach::OptionBudget { budget_rate: 0, equity_kicker: 0 },
        detailed_output: true,
        treasury_change: 0,
        fixed_lapse_rate: None,
        hedge_params: Some(HedgeParams::default_params()),
    }
}

#[test]
fn test_projection_runs() {
    let assumptions = Assumptions::default_pricing();
    let config = default_config(12);

    let engine = ProjectionEngine::new(&assumptions, config);
    let policy = test_policy();

    let result = engine.project_policy(&policy);

    assert_eq!(result.cashflows.len(), 12);
    assert!(result.cashflows[0].bop_av > 0);
    assert!(result.cashflows[0].lives > 0);
}

#[test]
fn test_decrements_positive() {
    let assumptions = Assumptions::default_pricing();
    let config = default_config(1);

    let engine = ProjectionEngine::new(&assumptions, config);
    let policy = test_policy();

    let result = engine.project_policy(&policy);
    let row = &result.cashflows[0];

    // Mortality is positive and below one; lapse sits in [0, 1).
    assert!(row.final_mortality > 0 && row.final_mortality < 1_000_000_000);
    assert!(row.final_lapse_rate >= 0 && row.final_lapse_rate < 1_000_000_000);
}

#[test]
fn test_av_decreases_over_time() {
    let assumptions = Assumptions::default_pricing();
    let config = default_config(120);

    let engine = ProjectionEngine::new(&assumptions, config);
    let policy = test_policy();

    let result = engine.project_policy(&policy);

    // With no crediting, the account value falls over time.
    let first_av = result.cashflows[0].bop_av;
    let last_av = result.cashflows.last().unwrap().eop_av;

    assert!(last_av < first_av);
}

#[test]
fn test_first_month_outputs() {
    // Projection month one: no lapse, no free withdrawal, no non-systematic
    // withdrawal, the full premium, and a positive mortality decrement.
    let assumptions = Assumptions::default_pricing();
    let config = default_config(2);
    let engine = ProjectionEngine::new(&assumptions, config);
    let policy = test_policy();

    let result = engine.project_policy(&policy);
    let row = &result.cashflows[0];
    assert_eq!(row.final_lapse_rate, 0);
    assert_eq!(row.fpw_pct, 0);
    assert_eq!(row.non_systematic_pwd_rate, 0);
    assert_eq!(row.premium, policy.initial_premium);
    assert!(row.final_mortality > 0);
    assert!(row.mortality_dec > 0);
    assert_eq!(result.cashflows[1].premium, 0);
}

#[test]
fn test_lives_persistency_is_running_product() {
    // The cumulative lives persistency is exactly the fixed-point product of
    // the monthly survival factors (1 - mortality)(1 - lapse), month by month.
    let assumptions = Assumptions::default_pricing();
    let config = default_config(36);
    let engine = ProjectionEngine::new(&assumptions, config);
    let policy = test_policy();
    let result = engine.project_policy(&policy);
    let rows = &result.cashflows;

    let scale: i128 = 1_000_000_000;
    let mut running: i64 = 1_000_000_000;
    for row in rows {
        let factor =
            ((scale - row.final_mortality as i128) * (scale - row.final_lapse_rate as i128))
                / scale;
        running = (((running as i128) * factor) / scale) as i64;
        assert_eq!(row.lives_persistency, running);
    }
}

#[test]
fn test_persistency_monotone() {
    let assumptions = Assumptions::default_pricing();
    let config = default_config(60);
    let engine = ProjectionEngine::new(&assumptions, config);
    let policy = test_policy();
    let result = engine.project_policy(&policy);
    let rows = &result.cashflows;
    for i in 1..rows.len() {
        assert!(rows[i].av_persistency <= rows[i - 1].av_persistency);
        assert!(rows[i].bb_persistency <= rows[i - 1].bb_persistency);
        assert!(rows[i].lives_persistency <= rows[i - 1].lives_persistency);
        assert!(rows[i].lives <= rows[i - 1].lives);
        assert!(rows[i].eop_av >= 0);
        assert_eq!(rows[i].bop_av, rows[i - 1].eop_av);
    }
}

fn frictionless_assumptions() -> Assumptions {
    // Zero mortality, zero withdrawals: only the rollup moves the benefit
    // base.
    let mut assumptions = Assumptions::default_pricing();
    let zero_rates: Vec<(i64, i64)> = vec![(0, 0); 121];
    assumptions.mortality = MortalityTable::new(
        zero_rates,
        flat_age_factors(),
        0,
        MonthlyConversion::Standard,
    );
    assumptions.pwd = PwdAssumptions::from_loaded(
        RmdTable::from_loaded(vec![]),
        FreeWithdrawalUtilization::from_loaded(vec![0, 0, 0, 0]),
    );
    assumptions
}

#[test]
fn test_rollup_factor_at_year_boundary() {
    // With a 30% bonus and a 10% rollup, the year-five boundary multiplies the
    // benefit base by (1 + 0.3 + 0.5) / (1 + 0.3 + 0.4) = 1.8 / 1.7.
    let assumptions = frictionless_assumptions();
    let mut config = default_config(13);
    config.fixed_lapse_rate = Some(0);

    let mut policy = test_policy();
    policy.duration_months = 48; // months 1..=12 are policy year 5
    policy.qual_status = QualStatus::N;

    let engine = ProjectionEngine::new(&assumptions, config);
    let result = engine.project_policy(&policy);
    let rows = &result.cashflows;

    // No decrements: the base is unchanged until the rollup at month 12.
    assert_eq!(rows[11].bop_benefit_base, policy.initial_benefit_base);
    let expected = (policy.initial_benefit_base as i128) * 1_800_000_000 / 1_700_000_000;
    assert_eq!(rows[12].bop_benefit_base as i128, expected);
}

#[test]
fn test_av_exhaustion_is_sticky() {
    // Once the account value reaches zero it stays there.
    let assumptions = Assumptions::default_pricing();
    let config = default_config(24);
    let mut policy = test_policy();
    policy.current_av = Some(0);

    let engine = ProjectionEngine::new(&assumptions, config);
    let result = engine.project_policy(&policy);
    for row in &result.cashflows {
        assert_eq!(row.eop_av, 0);
    }
}

#[test]
fn test_benefit_base_frozen_after_activation() {
    // After income activation the benefit base never grows.
    let assumptions = Assumptions::default_pricing();
    let config = default_config(60);
    let policy = Policy::with_glwb_start(
        7,
        QualStatus::N,
        65,
        Gender::Female,
        13_000_000,
        1_000_000_000,
        10_000_000,
        CreditingStrategy::Indexed,
        10,
        47_500_000,
        10_000_000,
        300_000_000,
        RollupType::Simple,
        2,
    );
    let engine = ProjectionEngine::new(&assumptions, config);
    let result = engine.project_policy(&policy);
    let rows = &result.cashflows;
    for i in 1..rows.len() {
        if rows[i - 1].glwb_activated {
            assert!(rows[i].glwb_activated);
            assert!(rows[i].bop_benefit_base <= rows[i - 1].bop_benefit_base);
        }
    }
    // Activation happens at the start of policy year two.
    assert!(!rows[0].glwb_activated);
    assert!(rows[12].glwb_activated);
    assert!(rows[12].systematic_withdrawal > 0);
}

#[test]
fn test_locked_payout_rate_is_frozen() {
    // Once income activates, every systematic withdrawal uses the payout rate
    // locked at the first active month (here age 66, the 6% band), never a
    // later age's rate.
    let assumptions = Assumptions::default_pricing();
    let config = default_config(120);
    let policy = Policy::with_glwb_start(
        9,
        QualStatus::N,
        65,
        Gender::Female,
        13_000_000,
        1_000_000_000,
        10_000_000,
        CreditingStrategy::Indexed,
        10,
        47_500_000,
        10_000_000,
        300_000_000,
        RollupType::Simple,
        2,
    );
    let engine = ProjectionEngine::new(&assumptions, config);
    let result = engine.project_policy(&policy);
    let locked_rate: i128 = 60_000_000; // single-life band for age 66
    for row in &result.cashflows {
        if row.glwb_activated {
            let expected = (row.bop_benefit_base as i128) * locked_rate / 1_000_000_000 / 12;
            assert_eq!(row.systematic_withdrawal as i128, expected);
        }
    }
}

#[test]
fn test_projection_reaches_horizon_or_exhausts_lives() {
    // The run covers every configured month unless lives run out first.
    let assumptions = Assumptions::default_pricing();
    let config = default_config(36);
    let engine = ProjectionEngine::new(&assumptions, config);
    let policy = test_policy();
    let result = engine.project_policy(&policy);
    assert!(
        result.cashflows.len() == 36
            || result.cashflows.last().map(|r| r.lives) == Some(0)
    );
    assert_eq!(result.cashflows.len(), 36);
}

#[test]
fn test_aggregation_is_stable() {
    // Recomputing the block from the same inputs gives an identical vector.
    let assumptions = Assumptions::default_pricing();
    let config = default_config(24);
    let engine = ProjectionEngine::new(&assumptions, config);
    let policies = vec![test_policy(), test_policy()];
    let results: Vec<_> = policies.iter().map(|p| engine.project_policy(p)).collect();
    let once = aggregate_net_cashflows(&results, 24);
    let twice = aggregate_net_cashflows(&results, 24);
    assert_eq!(once, twice);
    assert_eq!(once.len(), 24);
    // Two identical cells: each month is twice the single cell's flow, up to
    // saturation (not reached here).
    let single: Vec<_> = results[..1].to_vec();
    let one = aggregate_net_cashflows(&single, 24);
    for m in 0..24 {
        assert_eq!(once[m], 2 * one[m]);
    }
}

#[test]
fn test_scenario_runner_batch() {
    let runner = ScenarioRunner::new();
    let policy = Policy::new(
        1,
        QualStatus::Q,
        65,
        Gender::Male,
        10_000_000,
        1_000_000_000,
        10_000_000,
        CreditingStrategy::Indexed,
        10,
        47_500_000,
        10_000_000,
        300_000_000,
        RollupType::Simple,
    );

    let rates: [i64; 3] = [30_000_000, 40_000_000, 50_000_000];
    let configs: Vec<ProjectionConfig> = rates
        .iter()
        .map(|&rate| ProjectionConfig {
            projection_months: 120,
            crediting: CreditingApproach::IndexedAnnual { annual_rate: rate },
            detailed_output: false,
            treasury_change: 0,
            fixed_lapse_rate: Some(50_000_000),
            hedge_params: None,
        })
        .collect();

    let results = runner.run_scenarios(&policy, &configs);
    assert_eq!(results.len(), 3);

    // A higher credited rate leaves a higher final account value.
    let low = results[0].cashflows.last().unwrap().eop_av;
    let high = results[2].cashflows.last().unwrap().eop_av;
    assert!(high > low);
}
