//! Scenario runner: pre-loads assumptions once, then runs many projections
//! with different configurations against them.

use vstd::prelude::*;
use crate::assumptions::Assumptions;
use crate::policy::Policy;
use crate::engine::{ProjectionEngine, ProjectionConfig};
use crate::cashflows::ProjectionResult;

verus! {

/// Pre-loaded runner for batch projections.
pub struct ScenarioRunner {
    /// The base assumptions every run shares.
    pub base_assumptions: Assumptions,
}

impl ScenarioRunner {
    pub open spec fn wf(self) -> bool {
        self.base_assumptions.wf()
    }

    /// A runner on the standard pricing assumptions.
    pub fn new() -> (r: Self)
        ensures
            r.wf(),
    {
        ScenarioRunner { base_assumptions: Assumptions::default_pricing() }
    }

    /// A runner on pre-built assumptions.
    pub fn with_assumptions(assumptions: Assumptions) -> (r: Self)
        requires
            assumptions.wf(),
        ensures
            r.wf(),
            r.base_assumptions == assumptions,
    {
        ScenarioRunner { base_assumptions: assumptions }
    }

    /// Run one projection under a configuration.
    pub fn run(&self, policy: &Policy, config: ProjectionConfig) -> (r: ProjectionResult)
        requires
            self.wf(),
            policy.wf(),
            config.wf(),
        ensures
            r.policy_id == policy.policy_id,
            r.cashflows@.len() <= config.projection_months,
            r.cashflows@.len() == config.projection_months || (r.cashflows@.len() > 0
                && r.cashflows@[r.cashflows@.len() - 1].lives == 0),
    {
        let engine = ProjectionEngine::new(&self.base_assumptions, config);
        engine.project_policy(policy)
    }

    /// Run the same configuration over many policies, in their given order.
    pub fn run_batch(&self, policies: &Vec<Policy>, config: ProjectionConfig) -> (r: Vec<
        ProjectionResult,
    >)
        requires
            self.wf(),
            config.wf(),
            forall|i: int| 0 <= i < policies@.len() ==> (#[trigger] policies@[i]).wf(),
        ensures
            r@.len() == policies@.len(),
            forall|i: int| 0 <= i < r@.len() ==> {
                &&& (#[trigger] r@[i]).policy_id == policies@[i].policy_id
                &&& r@[i].cashflows@.len() <= config.projection_months
                &&& (r@[i].cashflows@.len() == config.projection_months || (r@[
                    i
                ].cashflows@.len() > 0 && r@[i].cashflows@[r@[i].cashflows@.len() - 1].lives
                    == 0))
            },
    {
        let engine = ProjectionEngine::new(&self.base_assumptions, config);
        let n = policies.len();
        let mut results: Vec<ProjectionResult> = Vec::new();
        let mut i: usize = 0;
        while i < n
            invariant
                0 <= i <= n,
                n == policies@.len(),
                engine.wf(),
                forall|j: int| 0 <= j < n ==> (#[trigger] policies@[j]).wf(),
                results@.len() == i,
                engine.config == config,
                forall|j: int| 0 <= j < i ==> {
                    &&& (#[trigger] results@[j]).policy_id == policies@[j].policy_id
                    &&& results@[j].cashflows@.len() <= config.projection_months
                    &&& (results@[j].cashflows@.len() == config.projection_months || (results@[
                        j
                    ].cashflows@.len() > 0 && results@[j].cashflows@[results@[
                        j
                    ].cashflows@.len() - 1].lives == 0))
                },
            decreases n - i,
        {
            let result = engine.project_policy(&policies[i]);
            results.push(result);
            i = i + 1;
        }
        results
    }

    /// Run many configurations over one policy, in their given order.
    pub fn run_scenarios(&self, policy: &Policy, configs: &Vec<ProjectionConfig>) -> (r: Vec<
        ProjectionResult,
    >)
        requires
            self.wf(),
            policy.wf(),
            forall|i: int| 0 <= i < configs@.len() ==> (#[trigger] configs@[i]).wf(),
        ensures
            r@.len() == configs@.len(),
            forall|i: int| 0 <= i < r@.len() ==> {
                &&& (#[trigger] r@[i]).policy_id == policy.policy_id
                &&& r@[i].cashflows@.len() <= configs@[i].projection_months
                &&& (r@[i].cashflows@.len() == configs@[i].projection_months || (r@[
                    i
                ].cashflows@.len() > 0 && r@[i].cashflows@[r@[i].cashflows@.len() - 1].lives
                    == 0))
            },
    {
        let n = configs.len();
        let mut results: Vec<ProjectionResult> = Vec::new();
        let mut i: usize = 0;
        while i < n
            invariant
                0 <= i <= n,
                n == configs@.len(),
                self.wf(),
                policy.wf(),
                forall|j: int| 0 <= j < n ==> (#[trigger] configs@[j]).wf(),
                results@.len() == i,
                forall|j: int| 0 <= j < i ==> {
                    &&& (#[trigger] results@[j]).policy_id == policy.policy_id
                    &&& results@[j].cashflows@.len() <= configs@[j].projection_months
                    &&& (results@[j].cashflows@.len() == configs@[j].projection_months
                        || (results@[j].cashflows@.len() > 0 && results@[j].cashflows@[results@[
                        j
                    ].cashflows@.len() - 1].lives == 0))
                },
            decreases n - i,
        {
            let engine = ProjectionEngine::new(&self.base_assumptions, configs[i]);
            let result = engine.project_policy(policy);
            results.push(result);
            i = i + 1;
        }
        results
    }

    /// The base assumptions.
    pub fn assumptions(&self) -> (r: &Assumptions)
        ensures
            r == &self.base_assumptions,
    {
        &self.base_assumptions
    }

    /// Mutable access to the base assumptions, for calibration.
    pub fn assumptions_mut(&mut self) -> (r: &mut Assumptions)
        ensures
            old(self) == self,
    {
        &mut self.base_assumptions
    }
}

} // verus!
