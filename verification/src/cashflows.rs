//! Cashflow output structures for projections.

use vstd::prelude::*;
use crate::fixed::{RATE_SCALE, MONEY_CAP};

verus! {

/// A single row of projection output for one month.
///
/// Money fields are in cents; rates, persistency factors and lives are scaled
/// by `RATE_SCALE`; the two lapse components are on the linear-predictor
/// scale; the lapse skew is a numerator over 180.
#[derive(Debug, Clone, Copy)]
pub struct CashflowRow {
    // Timing
    pub projection_month: u32,
    pub policy_year: u32,
    pub month_in_policy_year: u32,
    pub attained_age: u8,
    // Decrement rates
    pub baseline_mortality: i64,
    pub mortality_improvement: i64,
    pub final_mortality: i64,
    pub surrender_charge: i64,
    pub fpw_pct: i64,
    pub glwb_activated: bool,
    pub non_systematic_pwd_rate: i64,
    pub lapse_skew: u32,
    pub base_lapse_component: i64,
    pub dynamic_lapse_component: i64,
    pub final_lapse_rate: i64,
    // Account values and benefit base
    pub premium: i64,
    pub bop_av: i64,
    pub bop_benefit_base: i64,
    pub pre_decrement_av: i64,
    // Rider calculations
    pub rider_charge_rate: i64,
    pub credited_rate: i64,
    pub systematic_withdrawal: i64,
    pub rollup_rate: i64,
    // Persistency
    pub av_persistency: i64,
    pub bb_persistency: i64,
    pub lives_persistency: i64,
    pub lives: i64,
    // Per-policy decrement amounts
    pub mortality_dec: i64,
    pub lapse_dec: i64,
    pub pwd_dec: i64,
    pub rider_charges_dec: i64,
    pub surrender_charges_dec: i64,
    pub interest_credits_dec: i64,
    // Lives-weighted cashflow amounts
    pub mortality_cf: i64,
    pub lapse_cf: i64,
    pub pwd_cf: i64,
    pub rider_charges_cf: i64,
    pub surrender_charges_cf: i64,
    pub interest_credits_cf: i64,
    pub eop_av: i64,
    // Expenses and compensation
    pub expenses: i64,
    pub agent_commission: i64,
    pub imo_override: i64,
    pub imo_conversion_owed: i64,
    pub wholesaler_override: i64,
    pub wholesaler_conversion_owed: i64,
    pub chargebacks: i64,
    pub bonus_comp: i64,
    // Summary
    pub total_net_cashflow: i64,
    pub net_index_credit_reimbursement: i64,
    pub hedge_gains: i64,
}

impl CashflowRow {
    /// A fresh row for a projection month, every amount zero and the
    /// persistency factors at one unit.
    pub fn new(projection_month: u32) -> (r: Self)
        ensures
            r.projection_month == projection_month,
            r.policy_year == 1,
            r.month_in_policy_year == 1,
            r.attained_age == 0,
            r.final_mortality == 0,
            r.final_lapse_rate == 0,
            r.premium == 0,
            r.bop_av == 0,
            r.eop_av == 0,
            r.av_persistency == RATE_SCALE,
            r.bb_persistency == RATE_SCALE,
            r.lives_persistency == RATE_SCALE,
            r.lives == 0,
            r.total_net_cashflow == 0,
            r.systematic_withdrawal == 0,
            r.mortality_dec == 0,
            r.lapse_dec == 0,
            r.pwd_dec == 0,
            r.chargebacks == 0,
            r.hedge_gains == 0,
    {
        CashflowRow {
            projection_month,
            policy_year: 1,
            month_in_policy_year: 1,
            attained_age: 0,
            baseline_mortality: 0,
            mortality_improvement: 0,
            final_mortality: 0,
            surrender_charge: 0,
            fpw_pct: 0,
            glwb_activated: false,
            non_systematic_pwd_rate: 0,
            lapse_skew: 0,
            base_lapse_component: 0,
            dynamic_lapse_component: 0,
            final_lapse_rate: 0,
            premium: 0,
            bop_av: 0,
            bop_benefit_base: 0,
            pre_decrement_av: 0,
            rider_charge_rate: 0,
            credited_rate: 0,
            systematic_withdrawal: 0,
            rollup_rate: 0,
            av_persistency: RATE_SCALE,
            bb_persistency: RATE_SCALE,
            lives_persistency: RATE_SCALE,
            lives: 0,
            mortality_dec: 0,
            lapse_dec: 0,
            pwd_dec: 0,
            rider_charges_dec: 0,
            surrender_charges_dec: 0,
            interest_credits_dec: 0,
            mortality_cf: 0,
            lapse_cf: 0,
            pwd_cf: 0,
            rider_charges_cf: 0,
            surrender_charges_cf: 0,
            interest_credits_cf: 0,
            eop_av: 0,
            expenses: 0,
            agent_commission: 0,
            imo_override: 0,
            imo_conversion_owed: 0,
            wholesaler_override: 0,
            wholesaler_conversion_owed: 0,
            chargebacks: 0,
            bonus_comp: 0,
            total_net_cashflow: 0,
            net_index_credit_reimbursement: 0,
            hedge_gains: 0,
        }
    }
}

/// Sum of the premiums of the first `k` rows.
pub open spec fn spec_total_premium(rows: Seq<CashflowRow>, k: int) -> int
    decreases k,
{
    if k <= 0 {
        0
    } else {
        spec_total_premium(rows, k - 1) + rows[k - 1].premium
    }
}

/// Sum of the lives-weighted mortality cashflows of the first `k` rows.
pub open spec fn spec_total_mortality(rows: Seq<CashflowRow>, k: int) -> int
    decreases k,
{
    if k <= 0 {
        0
    } else {
        spec_total_mortality(rows, k - 1) + rows[k - 1].mortality_cf
    }
}

/// Sum of the lives-weighted lapse cashflows of the first `k` rows.
pub open spec fn spec_total_lapse(rows: Seq<CashflowRow>, k: int) -> int
    decreases k,
{
    if k <= 0 {
        0
    } else {
        spec_total_lapse(rows, k - 1) + rows[k - 1].lapse_cf
    }
}

/// Sum of the lives-weighted withdrawal cashflows of the first `k` rows.
pub open spec fn spec_total_pwd(rows: Seq<CashflowRow>, k: int) -> int
    decreases k,
{
    if k <= 0 {
        0
    } else {
        spec_total_pwd(rows, k - 1) + rows[k - 1].pwd_cf
    }
}

/// Sum of the lives-weighted rider charge cashflows of the first `k` rows.
pub open spec fn spec_total_rider_charges(rows: Seq<CashflowRow>, k: int) -> int
    decreases k,
{
    if k <= 0 {
        0
    } else {
        spec_total_rider_charges(rows, k - 1) + rows[k - 1].rider_charges_cf
    }
}

/// Sum of the net cashflows of the first `k` rows.
pub open spec fn spec_total_net_cf(rows: Seq<CashflowRow>, k: int) -> int
    decreases k,
{
    if k <= 0 {
        0
    } else {
        spec_total_net_cf(rows, k - 1) + rows[k - 1].total_net_cashflow
    }
}

/// Complete projection result for one policy cell.
#[derive(Debug, Clone)]
pub struct ProjectionResult {
    /// Policy identifier.
    pub policy_id: u32,
    /// Monthly cashflow rows.
    pub cashflows: Vec<CashflowRow>,
}

impl ProjectionResult {
    /// An empty result for a policy.
    pub fn new(policy_id: u32) -> (r: Self)
        ensures
            r.policy_id == policy_id,
            r.cashflows@.len() == 0,
    {
        ProjectionResult { policy_id, cashflows: Vec::new() }
    }

    /// Append a cashflow row.
    pub fn add_row(&mut self, row: CashflowRow)
        ensures
            final(self).policy_id == old(self).policy_id,
            final(self).cashflows@ == old(self).cashflows@.push(row),
    {
        self.cashflows.push(row);
    }

    /// Summary statistics over the rows.
    pub fn summary(&self) -> (r: ProjectionSummary)
        requires
            forall|i: int| 0 <= i < self.cashflows@.len() ==> {
                &&& 0 <= (#[trigger] self.cashflows@[i]).premium <= MONEY_CAP
                &&& 0 <= self.cashflows@[i].mortality_cf <= MONEY_CAP
                &&& 0 <= self.cashflows@[i].lapse_cf <= MONEY_CAP
                &&& 0 <= self.cashflows@[i].pwd_cf <= MONEY_CAP
                &&& 0 <= self.cashflows@[i].rider_charges_cf <= MONEY_CAP
            },
            self.cashflows@.len() <= 100_000,
        ensures
            r.total_months == self.cashflows@.len(),
            r.total_premium == spec_total_premium(self.cashflows@, self.cashflows@.len() as int),
            r.total_mortality == spec_total_mortality(
                self.cashflows@,
                self.cashflows@.len() as int,
            ),
            r.total_lapse == spec_total_lapse(self.cashflows@, self.cashflows@.len() as int),
            r.total_pwd == spec_total_pwd(self.cashflows@, self.cashflows@.len() as int),
            r.total_rider_charges == spec_total_rider_charges(
                self.cashflows@,
                self.cashflows@.len() as int,
            ),
            r.total_net_cf == spec_total_net_cf(self.cashflows@, self.cashflows@.len() as int),
            r.final_av == (if self.cashflows@.len() == 0 {
                0int
            } else {
                self.cashflows@[self.cashflows@.len() - 1].eop_av as int
            }),
            r.final_lives == (if self.cashflows@.len() == 0 {
                0int
            } else {
                self.cashflows@[self.cashflows@.len() - 1].lives as int
            }),
    {
        let n = self.cashflows.len();
        let mut total_premium: i128 = 0;
        let mut total_mortality: i128 = 0;
        let mut total_lapse: i128 = 0;
        let mut total_pwd: i128 = 0;
        let mut total_rider_charges: i128 = 0;
        let mut total_net_cf: i128 = 0;
        let mut i: usize = 0;
        while i < n
            invariant
                0 <= i <= n,
                n == self.cashflows@.len(),
                n <= 100_000,
                forall|j: int| 0 <= j < n ==> {
                    &&& 0 <= (#[trigger] self.cashflows@[j]).premium <= MONEY_CAP
                    &&& 0 <= self.cashflows@[j].mortality_cf <= MONEY_CAP
                    &&& 0 <= self.cashflows@[j].lapse_cf <= MONEY_CAP
                    &&& 0 <= self.cashflows@[j].pwd_cf <= MONEY_CAP
                    &&& 0 <= self.cashflows@[j].rider_charges_cf <= MONEY_CAP
                },
                0 <= total_premium <= i as i128 * MONEY_CAP as i128,
                0 <= total_mortality <= i as i128 * MONEY_CAP as i128,
                0 <= total_lapse <= i as i128 * MONEY_CAP as i128,
                0 <= total_pwd <= i as i128 * MONEY_CAP as i128,
                0 <= total_rider_charges <= i as i128 * MONEY_CAP as i128,
                i as i128 * i64::MIN as i128 <= total_net_cf <= i as i128 * i64::MAX as i128,
                total_premium == spec_total_premium(self.cashflows@, i as int),
                total_mortality == spec_total_mortality(self.cashflows@, i as int),
                total_lapse == spec_total_lapse(self.cashflows@, i as int),
                total_pwd == spec_total_pwd(self.cashflows@, i as int),
                total_rider_charges == spec_total_rider_charges(self.cashflows@, i as int),
                total_net_cf == spec_total_net_cf(self.cashflows@, i as int),
            decreases n - i,
        {
            let row = &self.cashflows[i];
            proof {
                lemma_sum_step(i as int, total_premium as int, MONEY_CAP as int);
                lemma_sum_step(i as int, total_mortality as int, MONEY_CAP as int);
                lemma_sum_step(i as int, total_lapse as int, MONEY_CAP as int);
                lemma_sum_step(i as int, total_pwd as int, MONEY_CAP as int);
                lemma_sum_step(i as int, total_rider_charges as int, MONEY_CAP as int);
                lemma_sum_step_signed(i as int, total_net_cf as int);
            }
            total_premium = total_premium + row.premium as i128;
            total_mortality = total_mortality + row.mortality_cf as i128;
            total_lapse = total_lapse + row.lapse_cf as i128;
            total_pwd = total_pwd + row.pwd_cf as i128;
            total_rider_charges = total_rider_charges + row.rider_charges_cf as i128;
            total_net_cf = total_net_cf + row.total_net_cashflow as i128;
            i = i + 1;
        }
        let (final_av, final_lives) = if n == 0 {
            (0i64, 0i64)
        } else {
            (self.cashflows[n - 1].eop_av, self.cashflows[n - 1].lives)
        };
        ProjectionSummary {
            total_months: n as u32,
            total_premium,
            total_mortality,
            total_lapse,
            total_pwd,
            total_rider_charges,
            total_net_cf,
            final_av,
            final_lives,
        }
    }
}

/// A partial sum of at most `i` summands each within `cap` leaves room for one
/// more.
proof fn lemma_sum_step(i: int, total: int, cap: int) by (nonlinear_arith)
    requires
        0 <= i <= 100_000,
        0 <= cap,
        0 <= total <= i * cap,
    ensures
        total + cap <= (i + 1) * cap,
{
}

/// The signed version for the net cashflow total.
proof fn lemma_sum_step_signed(i: int, total: int) by (nonlinear_arith)
    requires
        0 <= i <= 100_000,
        i * (i64::MIN as int) <= total <= i * (i64::MAX as int),
    ensures
        (i + 1) * (i64::MIN as int) <= total + i64::MIN,
        total + i64::MAX <= (i + 1) * (i64::MAX as int),
{
}

/// Summary statistics for a projection: totals over all months and the final
/// account value and lives.
#[derive(Debug, Clone, Copy)]
pub struct ProjectionSummary {
    pub total_months: u32,
    pub total_premium: i128,
    pub total_mortality: i128,
    pub total_lapse: i128,
    pub total_pwd: i128,
    pub total_rider_charges: i128,
    pub total_net_cf: i128,
    pub final_av: i64,
    pub final_lives: i64,
}

} // verus!
