//! Core types for reserve calculations.

use vstd::prelude::*;
use crate::fixed::{RATE_SCALE, MONEY_CAP};
use crate::lapse::{spec_itm, calculate_itm_ness, ITM_CAP};

verus! {

/// State of a policy for reserve calculation.
#[derive(Debug, Clone, Copy, PartialEq, Eq, Structural)]
pub enum PolicyState {
    /// Before income: the holder can elect income or surrender.
    Accumulation,
    /// Taking rider withdrawals.
    IncomeActive,
    /// Terminated by surrender.
    Surrendered,
    /// Ended by death or maturity.
    Matured,
}

impl Default for PolicyState {
    fn default() -> (r: Self)
        ensures
            r == PolicyState::Accumulation,
    {
        PolicyState::Accumulation
    }
}

/// Projection state for a reserve-side walk.  Money in cents; the survival
/// probability is scaled.
#[derive(Debug, Clone, Copy)]
pub struct ReserveProjectionState {
    /// Months from the valuation date.
    pub month: u32,
    /// Current policy state.
    pub policy_state: PolicyState,
    /// Current account value.
    pub account_value: i64,
    /// Current benefit base.
    pub benefit_base: i64,
    /// Systematic withdrawals taken so far.
    pub cumulative_withdrawals: i64,
    /// Free withdrawal amount still available.
    pub remaining_free_amount: i64,
    /// Cumulative survival probability from the valuation date, scaled.
    pub survival_probability: i64,
    /// Attained age at this point.
    pub attained_age: u8,
    /// Policy year at this point.
    pub policy_year: u32,
}

impl ReserveProjectionState {
    pub open spec fn wf(self) -> bool {
        &&& 0 <= self.account_value <= MONEY_CAP
        &&& 0 <= self.benefit_base <= MONEY_CAP
        &&& 0 <= self.survival_probability <= RATE_SCALE
    }

    /// Initial state at a valuation: full survival, a tenth of the account
    /// still free to withdraw.
    pub fn initial(
        account_value: i64,
        benefit_base: i64,
        attained_age: u8,
        policy_year: u32,
        income_activated: bool,
    ) -> (r: Self)
        requires
            0 <= account_value <= MONEY_CAP,
            0 <= benefit_base <= MONEY_CAP,
        ensures
            r.wf(),
            r.month == 0,
            r.policy_state == (if income_activated {
                PolicyState::IncomeActive
            } else {
                PolicyState::Accumulation
            }),
            r.account_value == account_value,
            r.benefit_base == benefit_base,
            r.cumulative_withdrawals == 0,
            r.remaining_free_amount == account_value / 10,
            r.survival_probability == RATE_SCALE,
            r.attained_age == attained_age,
            r.policy_year == policy_year,
    {
        ReserveProjectionState {
            month: 0,
            policy_state: if income_activated {
                PolicyState::IncomeActive
            } else {
                PolicyState::Accumulation
            },
            account_value,
            benefit_base,
            cumulative_withdrawals: 0,
            remaining_free_amount: account_value / 10,
            survival_probability: RATE_SCALE,
            attained_age,
            policy_year,
        }
    }

    /// In-the-moneyness of the state.
    pub fn itm_ness(&self) -> (r: i64)
        requires
            self.wf(),
        ensures
            r == spec_itm(self.benefit_base as int, self.account_value as int),
            0 <= r <= ITM_CAP,
    {
        calculate_itm_ness(self.benefit_base, self.account_value)
    }
}

/// Breakdown of a reserve by benefit type, in cents.
#[derive(Debug, Clone, Copy)]
pub struct ReserveComponents {
    /// Present value of guaranteed death benefits (non-elective).
    pub death_benefit_pv: i64,
    /// Present value of the rider income stream (elective).
    pub income_benefit_pv: i64,
    /// Cash surrender value component, where binding.
    pub surrender_value_pv: i64,
    /// Combined elective benefit present value.
    pub elective_benefit_pv: i64,
    /// Free partial withdrawal present value, where the optimal path takes it.
    pub free_pwd_pv: i64,
}

impl ReserveComponents {
    /// All-zero components.
    pub fn zero() -> (r: Self)
        ensures
            r.death_benefit_pv == 0,
            r.income_benefit_pv == 0,
            r.surrender_value_pv == 0,
            r.elective_benefit_pv == 0,
            r.free_pwd_pv == 0,
    {
        ReserveComponents {
            death_benefit_pv: 0,
            income_benefit_pv: 0,
            surrender_value_pv: 0,
            elective_benefit_pv: 0,
            free_pwd_pv: 0,
        }
    }

    /// Total reserve from the components: the non-elective death benefit plus
    /// the elective benefit.
    pub fn total(&self) -> (r: i64)
        requires
            0 <= self.death_benefit_pv <= MONEY_CAP,
            0 <= self.elective_benefit_pv <= MONEY_CAP,
        ensures
            r == self.death_benefit_pv + self.elective_benefit_pv,
    {
        self.death_benefit_pv + self.elective_benefit_pv
    }
}

/// Method used for a reserve calculation.
#[derive(Debug, Clone, Copy, PartialEq, Eq, Structural)]
pub enum ReserveMethod {
    /// The commissioners' reserve valuation method over activation times.
    CARVM,
    /// The variant for contracts with elective benefits.
    AG33,
    /// The basic computational method for indexed contracts.
    AG35Type1,
    /// The certification-based method for indexed contracts.
    AG35Type2,
    /// Principles-based reserve for a scenario.
    VM22 { scenario_id: u32 },
}

impl Default for ReserveMethod {
    fn default() -> (r: Self)
        ensures
            r == ReserveMethod::CARVM,
    {
        ReserveMethod::CARVM
    }
}

/// Result of a reserve calculation, in cents.
#[derive(Debug, Clone, Copy)]
pub struct ReserveResult {
    /// Policy identifier.
    pub policy_id: u32,
    /// Month of valuation (0 is the issue date).
    pub valuation_date: u32,
    /// Gross reserve.
    pub gross_reserve: i64,
    /// Net reserve.
    pub net_reserve: i64,
    /// Optimal income activation month; `u32::MAX` means never.
    pub optimal_activation_month: u32,
    /// Breakdown by benefit type.
    pub reserve_components: ReserveComponents,
    /// Method used.
    pub method: ReserveMethod,
    /// Whether this result came from a cache roll-forward.
    pub from_cache: bool,
    /// Cash surrender value at valuation.
    pub csv_at_valuation: i64,
}

impl ReserveResult {
    /// Whether the cash surrender value is binding: the gross reserve sits
    /// within a cent of it.
    pub fn is_csv_binding(&self) -> (r: bool)
        requires
            0 <= self.gross_reserve <= MONEY_CAP,
            0 <= self.csv_at_valuation <= MONEY_CAP,
        ensures
            r == (self.gross_reserve == self.csv_at_valuation),
    {
        self.gross_reserve == self.csv_at_valuation
    }
}

/// Configuration for a reserve-aware projection.
#[derive(Debug, Clone, Copy)]
pub struct ReserveProjectionConfig {
    /// Maximum projection months.
    pub max_projection_months: u32,
    /// Valuation month (0 means from issue).
    pub valuation_month: u32,
    /// Force income activation at a month, for path testing.
    pub forced_activation_month: Option<u32>,
    /// Whether to track detailed benefit streams.
    pub detailed_output: bool,
}

impl Default for ReserveProjectionConfig {
    fn default() -> (r: Self)
        ensures
            r.max_projection_months == 768,
            r.valuation_month == 0,
            r.forced_activation_month is None,
            !r.detailed_output,
    {
        ReserveProjectionConfig {
            max_projection_months: 768,
            valuation_month: 0,
            forced_activation_month: None,
            detailed_output: false,
        }
    }
}

} // verus!
