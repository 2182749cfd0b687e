//! Partial withdrawal assumptions: required minimum distributions, free
//! withdrawal utilisation, and the combined non-systematic withdrawal rate.

use vstd::prelude::*;
use crate::fixed::{RATE_SCALE, scale_down, mul_rate, spec_monthly_from_annual, monthly_from_annual};
use crate::policy::QualStatus;

verus! {

/// Rate in a required-distribution table for an exact age, scanning from entry
/// `i`; ages past every entry take the last rate, 20% in an empty table.
pub open spec fn spec_rmd_lookup(rates: Seq<(u8, i64)>, age: int, i: int) -> int
    decreases rates.len() - i,
{
    if i < 0 || i >= rates.len() {
        if rates.len() == 0 {
            200_000_000
        } else {
            rates[rates.len() - 1].1 as int
        }
    } else if rates[i].0 == age {
        rates[i].1 as int
    } else {
        spec_rmd_lookup(rates, age, i + 1)
    }
}

/// Required-distribution rate by attained age: zero below 73, else the table
/// rate, held flat past the last tabulated age.
pub open spec fn spec_rmd_rate(rates: Seq<(u8, i64)>, age: int) -> int {
    if age < 73 {
        0
    } else {
        spec_rmd_lookup(rates, age, 0)
    }
}

/// The standard distribution-period table from age 73 to 100.
pub open spec fn spec_default_rmd_table() -> Seq<(u8, i64)> {
    seq![
        (73u8, 37735849i64), (74u8, 39215686i64),
        (75u8, 40650407i64), (76u8, 42194093i64),
        (77u8, 43668122i64), (78u8, 45454545i64),
        (79u8, 47393365i64), (80u8, 49504950i64),
        (81u8, 51546392i64), (82u8, 54054054i64),
        (83u8, 56497175i64), (84u8, 59523810i64),
        (85u8, 62500000i64), (86u8, 65789474i64),
        (87u8, 69444444i64), (88u8, 72992701i64),
        (89u8, 77519380i64), (90u8, 81967213i64),
        (91u8, 86956522i64), (92u8, 92592593i64),
        (93u8, 99009901i64), (94u8, 105263158i64),
        (95u8, 112359551i64), (96u8, 119047619i64),
        (97u8, 126582278i64), (98u8, 135135135i64),
        (99u8, 144927536i64), (100u8, 156250000i64),
    ]
}

/// Required minimum distribution table by attained age.
#[derive(Debug, Clone)]
pub struct RmdTable {
    /// (age, scaled rate) entries, from the first distribution age.
    pub rates: Vec<(u8, i64)>,
}

impl RmdTable {
    pub open spec fn wf(self) -> bool {
        forall|i: int| 0 <= i < self.rates@.len()
            ==> 0 <= (#[trigger] self.rates@[i]).1 <= RATE_SCALE
    }

    pub open spec fn view(self) -> Seq<(u8, i64)> {
        self.rates@
    }

    /// Build from (age, scaled rate) entries.
    pub fn from_loaded(rates: Vec<(u8, i64)>) -> (r: Self)
        requires
            forall|i: int| 0 <= i < rates@.len() ==> 0 <= (#[trigger] rates@[i]).1 <= RATE_SCALE,
        ensures
            r.wf(),
            r.view() == rates@,
    {
        RmdTable { rates }
    }

    /// The standard distribution-period table from age 73 to 100.
    pub fn default_table() -> (r: Self)
        ensures
            r.wf(),
            r.view() == spec_default_rmd_table(),
            r.view().len() == 28,
            r.view()[0] == (73u8, 37735849i64),
            r.view()[4] == (77u8, 43668122i64),
            r.view()[12] == (85u8, 62500000i64),
            r.view()[27] == (100u8, 156250000i64),
    {
        let rates: Vec<(u8, i64)> = vec![
            (73, 37735849),
            (74, 39215686),
            (75, 40650407),
            (76, 42194093),
            (77, 43668122),
            (78, 45454545),
            (79, 47393365),
            (80, 49504950),
            (81, 51546392),
            (82, 54054054),
            (83, 56497175),
            (84, 59523810),
            (85, 62500000),
            (86, 65789474),
            (87, 69444444),
            (88, 72992701),
            (89, 77519380),
            (90, 81967213),
            (91, 86956522),
            (92, 92592593),
            (93, 99009901),
            (94, 105263158),
            (95, 112359551),
            (96, 119047619),
            (97, 126582278),
            (98, 135135135),
            (99, 144927536),
            (100, 156250000),
        ];
        proof {
            assert(rates@ =~= spec_default_rmd_table());
        }
        RmdTable { rates }
    }

    /// Required-distribution rate for an attained age; zero below age 73, the
    /// last rate beyond the table.
    pub fn get_rate(&self, attained_age: u8) -> (r: i64)
        requires
            self.wf(),
        ensures
            r == spec_rmd_rate(self.view(), attained_age as int),
            0 <= r <= RATE_SCALE,
    {
        if attained_age < 73 {
            return 0;
        }
        let n = self.rates.len();
        let mut i: usize = 0;
        while i < n
            invariant
                0 <= i <= n,
                n == self.rates@.len(),
                self.wf(),
                attained_age >= 73,
                spec_rmd_lookup(self.view(), attained_age as int, 0) == spec_rmd_lookup(
                    self.view(),
                    attained_age as int,
                    i as int,
                ),
            decreases n - i,
        {
            let (age, rate) = self.rates[i];
            if age == attained_age {
                return rate;
            }
            i = i + 1;
        }
        if n == 0 {
            200_000_000
        } else {
            self.rates[n - 1].1
        }
    }

    /// Required-distribution rate for qualified policies only; non-qualified
    /// contracts carry no requirement.
    pub fn get_rate_if_qualified(&self, attained_age: u8, qual_status: QualStatus) -> (r: i64)
        requires
            self.wf(),
        ensures
            qual_status == QualStatus::Q ==> r == spec_rmd_rate(self.view(), attained_age as int),
            qual_status == QualStatus::N ==> r == 0,
    {
        match qual_status {
            QualStatus::Q => self.get_rate(attained_age),
            QualStatus::N => 0,
        }
    }
}

/// Utilisation of the free withdrawal amount by policy year: the last value
/// holds beyond the table, 40% in an empty one.
pub open spec fn spec_util_rate(rates: Seq<i64>, policy_year: int) -> int {
    if rates.len() == 0 {
        400_000_000
    } else if policy_year <= 1 {
        rates[0] as int
    } else if policy_year <= rates.len() {
        rates[policy_year - 1] as int
    } else {
        rates[rates.len() - 1] as int
    }
}

/// Free withdrawal utilisation by policy year, before income activation.
#[derive(Debug, Clone)]
pub struct FreeWithdrawalUtilization {
    /// Scaled utilisation rates by policy year (1-indexed).
    pub rates: Vec<i64>,
}

impl FreeWithdrawalUtilization {
    pub open spec fn wf(self) -> bool {
        forall|i: int| 0 <= i < self.rates@.len() ==> 0 <= #[trigger] self.rates@[i] <= RATE_SCALE
    }

    pub open spec fn view(self) -> Seq<i64> {
        self.rates@
    }

    /// Build from scaled per-year rates.
    pub fn from_loaded(rates: Vec<i64>) -> (r: Self)
        requires
            forall|i: int| 0 <= i < rates@.len() ==> 0 <= #[trigger] rates@[i] <= RATE_SCALE,
        ensures
            r.wf(),
            r.view() == rates@,
    {
        FreeWithdrawalUtilization { rates }
    }

    /// The standard curve: 10/20/30/40% over the first four years.
    pub fn default_curve() -> (r: Self)
        ensures
            r.wf(),
            r.view() == seq![100_000_000i64, 200_000_000i64, 300_000_000i64, 400_000_000i64],
            r.view().len() == 4,
            r.view()[0] == 100_000_000,
            r.view()[1] == 200_000_000,
            r.view()[2] == 300_000_000,
            r.view()[3] == 400_000_000,
    {
        let rates: Vec<i64> = vec![100_000_000, 200_000_000, 300_000_000, 400_000_000];
        proof {
            assert(rates@ =~= seq![
                100_000_000i64,
                200_000_000i64,
                300_000_000i64,
                400_000_000i64,
            ]);
        }
        FreeWithdrawalUtilization { rates }
    }

    /// Utilisation rate for a policy year.
    pub fn get_rate(&self, policy_year: u32) -> (r: i64)
        requires
            self.wf(),
        ensures
            r == spec_util_rate(self.view(), policy_year as int),
            0 <= r <= RATE_SCALE,
    {
        let n = self.rates.len();
        if n == 0 {
            400_000_000
        } else if policy_year <= 1 {
            self.rates[0]
        } else if (policy_year as usize) <= n {
            self.rates[(policy_year as usize) - 1]
        } else {
            self.rates[n - 1]
        }
    }
}

/// Free partial withdrawal percentage: zero in policy year one; for qualified
/// contracts the larger of the base free percentage and the required
/// distribution rate; the base free percentage otherwise.
pub open spec fn spec_fpw_pct(
    rmd: Seq<(u8, i64)>,
    free_pct: int,
    policy_year: int,
    age: int,
    qual: QualStatus,
) -> int {
    if policy_year == 1 {
        0
    } else if qual == QualStatus::Q {
        let r = spec_rmd_rate(rmd, age);
        if free_pct >= r {
            free_pct
        } else {
            r
        }
    } else {
        free_pct
    }
}

/// Annual non-systematic withdrawal rate: zero once income is activated, else
/// the free percentage times its utilisation.
pub open spec fn spec_annual_pwd_rate(
    rmd: Seq<(u8, i64)>,
    util: Seq<i64>,
    free_pct: int,
    policy_year: int,
    age: int,
    qual: QualStatus,
    income_activated: bool,
) -> int {
    if income_activated {
        0
    } else {
        scale_down(
            spec_fpw_pct(rmd, free_pct, policy_year, age, qual),
            spec_util_rate(util, policy_year),
        )
    }
}

/// Combined partial withdrawal assumptions.
#[derive(Debug, Clone)]
pub struct PwdAssumptions {
    pub rmd: RmdTable,
    pub free_utilization: FreeWithdrawalUtilization,
    /// Annual free withdrawal percentage, scaled.
    pub free_pct: i64,
}

impl PwdAssumptions {
    pub open spec fn wf(self) -> bool {
        &&& self.rmd.wf()
        &&& self.free_utilization.wf()
        &&& 0 <= self.free_pct <= RATE_SCALE
    }

    /// The standard assumptions: the default distribution table, the standard
    /// utilisation curve, and a 5% free withdrawal.
    pub fn default_assumptions() -> (r: Self)
        ensures
            r.wf(),
            r.free_pct == 50_000_000,
            r.rmd.view() == spec_default_rmd_table(),
            r.rmd.view().len() == 28,
            r.free_utilization.view().len() == 4,
            r.free_utilization.view() == seq![
                100_000_000i64,
                200_000_000i64,
                300_000_000i64,
                400_000_000i64,
            ],
    {
        PwdAssumptions {
            rmd: RmdTable::default_table(),
            free_utilization: FreeWithdrawalUtilization::default_curve(),
            free_pct: 50_000_000,
        }
    }

    /// Build from loaded distribution and utilisation tables, with the
    /// standard 5% free withdrawal.
    pub fn from_loaded(rmd: RmdTable, free_utilization: FreeWithdrawalUtilization) -> (r: Self)
        requires
            rmd.wf(),
            free_utilization.wf(),
        ensures
            r.wf(),
            r.rmd.view() == rmd.view(),
            r.free_utilization.view() == free_utilization.view(),
            r.free_pct == 50_000_000,
    {
        PwdAssumptions { rmd, free_utilization, free_pct: 50_000_000 }
    }

    /// Free partial withdrawal percentage for a month.
    pub fn get_fpw_pct(&self, policy_year: u32, attained_age: u8, qual_status: QualStatus) -> (r:
        i64)
        requires
            self.wf(),
        ensures
            r == spec_fpw_pct(
                self.rmd.view(),
                self.free_pct as int,
                policy_year as int,
                attained_age as int,
                qual_status,
            ),
            0 <= r <= RATE_SCALE,
    {
        if policy_year == 1 {
            return 0;
        }
        match qual_status {
            QualStatus::Q => {
                let rmd_rate = self.rmd.get_rate(attained_age);
                if self.free_pct >= rmd_rate {
                    self.free_pct
                } else {
                    rmd_rate
                }
            },
            QualStatus::N => self.free_pct,
        }
    }

    /// Annual non-systematic withdrawal rate.
    pub fn annual_pwd_rate(
        &self,
        policy_year: u32,
        attained_age: u8,
        qual_status: QualStatus,
        income_activated: bool,
    ) -> (r: i64)
        requires
            self.wf(),
        ensures
            r == spec_annual_pwd_rate(
                self.rmd.view(),
                self.free_utilization.view(),
                self.free_pct as int,
                policy_year as int,
                attained_age as int,
                qual_status,
                income_activated,
            ),
            0 <= r <= RATE_SCALE,
    {
        if income_activated {
            return 0;
        }
        let free_rate = self.get_fpw_pct(policy_year, attained_age, qual_status);
        let utilization = self.free_utilization.get_rate(policy_year);
        proof {
            crate::fixed::lemma_scale_shrink(free_rate as int, utilization as int);
        }
        mul_rate(free_rate, utilization)
    }

    /// Monthly non-systematic withdrawal rate, the annual rate spread evenly
    /// over twelve months.
    pub fn monthly_pwd_rate(
        &self,
        policy_year: u32,
        attained_age: u8,
        qual_status: QualStatus,
        income_activated: bool,
    ) -> (r: i64)
        requires
            self.wf(),
        ensures
            r == spec_monthly_from_annual(
                spec_annual_pwd_rate(
                    self.rmd.view(),
                    self.free_utilization.view(),
                    self.free_pct as int,
                    policy_year as int,
                    attained_age as int,
                    qual_status,
                    income_activated,
                ),
                15,
            ),
            0 <= r <= RATE_SCALE,
    {
        let annual = self.annual_pwd_rate(policy_year, attained_age, qual_status, income_activated);
        monthly_from_annual(annual, 15)
    }

    /// Monthly non-systematic withdrawal rate with the first-year rule: the
    /// whole of policy year one takes no withdrawals.
    pub fn monthly_pwd_rate_adjusted(
        &self,
        policy_year: u32,
        _month_in_policy_year: u32,
        attained_age: u8,
        qual_status: QualStatus,
        income_activated: bool,
    ) -> (r: i64)
        requires
            self.wf(),
        ensures
            policy_year == 1 ==> r == 0,
            policy_year != 1 ==> r == spec_monthly_from_annual(
                spec_annual_pwd_rate(
                    self.rmd.view(),
                    self.free_utilization.view(),
                    self.free_pct as int,
                    policy_year as int,
                    attained_age as int,
                    qual_status,
                    income_activated,
                ),
                15,
            ),
            0 <= r <= RATE_SCALE,
    {
        if policy_year == 1 {
            return 0;
        }
        self.monthly_pwd_rate(policy_year, attained_age, qual_status, income_activated)
    }
}

} // verus!
