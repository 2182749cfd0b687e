//! Container for all projection assumptions.

use vstd::prelude::*;
use crate::mortality::MortalityTable;
use crate::lapse::LapseModel;
use crate::product::ProductFeatures;
use crate::pwd::PwdAssumptions;

verus! {

/// All assumptions a projection consumes: mortality, lapse, product features
/// and partial withdrawals.  Loaded once and read-only afterwards.
#[derive(Debug, Clone)]
pub struct Assumptions {
    pub mortality: MortalityTable,
    pub lapse: LapseModel,
    pub product: ProductFeatures,
    pub pwd: PwdAssumptions,
}

impl Assumptions {
    /// Well-formed assumptions; the base contract's free withdrawal
    /// percentage and the withdrawal model's free percentage are one number,
    /// so a calibration cannot move one without the other.
    pub open spec fn wf(self) -> bool {
        &&& self.mortality.wf()
        &&& self.lapse.wf()
        &&& self.product.wf()
        &&& self.pwd.wf()
        &&& self.product.base.free_withdrawal_pct == self.pwd.free_pct
    }

    /// The standard pricing assumptions.
    pub fn default_pricing() -> (r: Self)
        ensures
            r.wf(),
            r.mortality.base_rates@.len() == 121,
            r.lapse.precalc_by_year@.len() == 13,
            r.product.base.surrender_charges.view().len() == 10,
            r.pwd.free_pct == 50_000_000,
    {
        Assumptions {
            mortality: MortalityTable::standard_table(),
            lapse: LapseModel::default_predictive_model(),
            product: ProductFeatures::default_features(),
            pwd: PwdAssumptions::default_assumptions(),
        }
    }
}

} // verus!
