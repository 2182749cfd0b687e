//! Roll-forward caching for multi-timestep reserve calculations.
//!
//! A full solve stores its result; later valuations roll the reserve forward
//! instead of re-solving, until one of the revalidation triggers fires.

use vstd::prelude::*;
use crate::fixed::{RATE_SCALE, MONEY_CAP};
use crate::lapse::{spec_itm, ITM_CAP};

verus! {

/// Moneyness stored with a cache entry: the cap on an exhausted account (so
/// the staleness trigger always fires for such a cell), the usual ratio
/// otherwise.
pub open spec fn spec_cached_itm(bb: int, av: int) -> int {
    if av <= 0 {
        ITM_CAP as int
    } else {
        spec_itm(bb, av)
    }
}

/// Cached optimal-path information from a full solve.  Money in cents, the
/// moneyness and rates scaled.
#[derive(Debug, Clone, Copy)]
pub struct CachedReservePath {
    /// Policy identifier.
    pub policy_id: u64,
    /// Month of the last full solve.
    pub solve_month: u32,
    /// Optimal income activation month; `u32::MAX` means never.
    pub optimal_activation_month: u32,
    /// Reserve at solve time.
    pub reserve_at_solve: i64,
    /// Account value at solve time.
    pub av_at_solve: i64,
    /// Benefit base at solve time.
    pub bb_at_solve: i64,
    /// In-the-moneyness at solve time, scaled.
    pub itm_at_solve: i64,
    /// Surrender charge rate at solve time, scaled.
    pub sc_rate_at_solve: i64,
    /// Monthly income amount once activated.
    pub monthly_income_amount: i64,
    /// Present value of the remaining death benefits along the optimal path.
    pub death_benefit_pv_remaining: i64,
    /// Free withdrawal amount still available at solve time.  (A per-month
    /// optimal withdrawal schedule is not stored: no solve produces one, so
    /// the entry carries only this scalar.)
    pub remaining_free_amount_at_solve: i64,
}

impl CachedReservePath {
    pub open spec fn wf(self) -> bool {
        &&& 0 <= self.reserve_at_solve <= MONEY_CAP
        &&& 0 <= self.av_at_solve <= MONEY_CAP
        &&& 0 <= self.bb_at_solve <= MONEY_CAP
        &&& 0 <= self.itm_at_solve <= ITM_CAP
        &&& 0 <= self.sc_rate_at_solve <= RATE_SCALE
        &&& 0 <= self.monthly_income_amount <= MONEY_CAP
        &&& 0 <= self.death_benefit_pv_remaining <= MONEY_CAP
    }

    /// Build a cache entry from a full solve result.
    pub fn new(
        policy_id: u64,
        solve_month: u32,
        optimal_activation_month: u32,
        reserve: i64,
        av: i64,
        bb: i64,
        monthly_income: i64,
        death_pv: i64,
        sc_rate: i64,
    ) -> (r: Self)
        requires
            0 <= reserve <= MONEY_CAP,
            0 <= av <= MONEY_CAP,
            0 <= bb <= MONEY_CAP,
            0 <= monthly_income <= MONEY_CAP,
            0 <= death_pv <= MONEY_CAP,
            0 <= sc_rate <= RATE_SCALE,
        ensures
            r.wf(),
            r.policy_id == policy_id,
            r.solve_month == solve_month,
            r.optimal_activation_month == optimal_activation_month,
            r.reserve_at_solve == reserve,
            r.av_at_solve == av,
            r.bb_at_solve == bb,
            r.itm_at_solve == spec_cached_itm(bb as int, av as int),
            r.sc_rate_at_solve == sc_rate,
            r.monthly_income_amount == monthly_income,
            r.death_benefit_pv_remaining == death_pv,
            r.remaining_free_amount_at_solve == av / 10,
    {
        let itm: i64 = if av <= 0 {
            ITM_CAP
        } else {
            crate::lapse::calculate_itm_ness(bb, av)
        };
        CachedReservePath {
            policy_id,
            solve_month,
            optimal_activation_month,
            reserve_at_solve: reserve,
            av_at_solve: av,
            bb_at_solve: bb,
            itm_at_solve: itm,
            sc_rate_at_solve: sc_rate,
            monthly_income_amount: monthly_income,
            death_benefit_pv_remaining: death_pv,
            remaining_free_amount_at_solve: av / 10,
        }
    }

    /// The cache can only serve months at or after its solve month.
    pub fn is_potentially_valid(&self, current_month: u32) -> (r: bool)
        ensures
            r == (current_month >= self.solve_month),
    {
        current_month >= self.solve_month
    }

    /// Months elapsed since the full solve.
    pub fn months_since_solve(&self, current_month: u32) -> (r: u32)
        ensures
            current_month >= self.solve_month ==> r == current_month - self.solve_month,
            current_month < self.solve_month ==> r == 0,
    {
        if current_month >= self.solve_month {
            current_month - self.solve_month
        } else {
            0
        }
    }

    /// Whether the month is at or past the cached optimal activation.
    pub fn past_optimal_activation(&self, current_month: u32) -> (r: bool)
        ensures
            r == (current_month >= self.optimal_activation_month),
    {
        current_month >= self.optimal_activation_month
    }

    /// Whether the month is within the threshold of the cached activation.
    pub fn approaching_activation(&self, current_month: u32, threshold_months: u32) -> (r: bool)
        ensures
            r == (self.optimal_activation_month as int - current_month as int
                <= threshold_months as int),
    {
        if self.optimal_activation_month >= current_month {
            self.optimal_activation_month - current_month <= threshold_months
        } else {
            true
        }
    }
}

/// Result of attempting to roll a cached reserve forward.
#[derive(Debug, Clone, Copy, PartialEq, Eq, Structural)]
pub enum RollForwardResult {
    /// Rolled forward; `still_valid` is false when a re-solve is advisable.
    Success { reserve: i64, still_valid: bool },
    /// A full re-solve is needed.
    NeedsResolve,
}

/// Why a cached reserve had to be re-solved.
#[derive(Debug, Clone, Copy, PartialEq, Eq, Structural)]
pub enum RevalidationReason {
    /// The periodic revalidation interval elapsed.
    Periodic,
    /// The in-the-moneyness moved past its threshold.
    ItmChange,
    /// The month is within the proximity window of the cached activation.
    ApproachingActivation,
    /// The account value moved past its threshold.
    AvDeviation,
}

/// A relative move `|current - cached| / max(cached, floor)` exceeds a scaled
/// threshold, phrased without division.
pub open spec fn spec_ratio_exceeds(current: int, cached: int, floor: int, threshold: int) -> bool {
    let base = if cached > floor {
        cached
    } else {
        floor
    };
    let diff = if current >= cached {
        current - cached
    } else {
        cached - current
    };
    diff * RATE_SCALE > threshold * base
}

/// Criteria for re-solving rather than rolling forward.
#[derive(Debug, Clone, Copy)]
pub struct RevalidationCriteria {
    /// Re-solve after this many months regardless.
    pub periodic_revalidation_months: u32,
    /// Re-solve when the moneyness moves by more than this fraction, scaled.
    pub itm_change_threshold: i64,
    /// Re-solve within this many months of the cached activation.
    pub activation_proximity_months: u32,
    /// Re-solve when the account value moves by more than this fraction, scaled.
    pub av_deviation_threshold: i64,
    /// Re-solve when a surrender charge boundary is crossed.
    pub check_sc_boundaries: bool,
}

impl RevalidationCriteria {
    pub open spec fn wf(self) -> bool {
        &&& 0 <= self.itm_change_threshold <= RATE_SCALE
        &&& 0 <= self.av_deviation_threshold <= RATE_SCALE
    }

    /// The standard criteria: a yearly re-solve, a 10% moneyness threshold, a
    /// six month activation window, and a 15% account value threshold.
    pub fn default_criteria() -> (r: Self)
        ensures
            r.wf(),
            r.periodic_revalidation_months == 12,
            r.itm_change_threshold == 100_000_000,
            r.activation_proximity_months == 6,
            r.av_deviation_threshold == 150_000_000,
            r.check_sc_boundaries,
    {
        RevalidationCriteria {
            periodic_revalidation_months: 12,
            itm_change_threshold: 100_000_000,
            activation_proximity_months: 6,
            av_deviation_threshold: 150_000_000,
            check_sc_boundaries: true,
        }
    }

    /// Whether a full re-solve is needed, and the first trigger that fired:
    /// the periodic interval, the moneyness move (against a floor of a
    /// hundredth of a unit), proximity to the cached activation, or the
    /// account value move (against a floor of one dollar).
    pub fn needs_revalidation(
        &self,
        cached: &CachedReservePath,
        current_month: u32,
        current_av: i64,
        current_bb: i64,
        _current_sc_period: u32,
    ) -> (r: Option<RevalidationReason>)
        requires
            self.wf(),
            cached.wf(),
            0 <= current_av <= MONEY_CAP,
            0 <= current_bb <= MONEY_CAP,
        ensures
            r == spec_needs_revalidation(
                *self,
                *cached,
                current_month as int,
                current_av as int,
                current_bb as int,
            ),
    {
        let months_elapsed: u32 = if current_month >= cached.solve_month {
            current_month - cached.solve_month
        } else {
            0
        };
        if months_elapsed >= self.periodic_revalidation_months {
            return Some(RevalidationReason::Periodic);
        }
        let current_itm = crate::lapse::calculate_itm_ness(current_bb, current_av);
        if ratio_exceeds(current_itm, cached.itm_at_solve, 10_000_000, self.itm_change_threshold) {
            return Some(RevalidationReason::ItmChange);
        }
        if cached.approaching_activation(current_month, self.activation_proximity_months) {
            return Some(RevalidationReason::ApproachingActivation);
        }
        if ratio_exceeds(current_av, cached.av_at_solve, 100, self.av_deviation_threshold) {
            return Some(RevalidationReason::AvDeviation);
        }
        None
    }
}

/// The trigger, if any, that forces a re-solve (see `needs_revalidation`).
pub open spec fn spec_needs_revalidation(
    c: RevalidationCriteria,
    cached: CachedReservePath,
    current_month: int,
    current_av: int,
    current_bb: int,
) -> Option<RevalidationReason> {
    let months_elapsed = if current_month >= cached.solve_month {
        current_month - cached.solve_month
    } else {
        0
    };
    if months_elapsed >= c.periodic_revalidation_months {
        Some(RevalidationReason::Periodic)
    } else if spec_ratio_exceeds(
        spec_itm(current_bb, current_av),
        cached.itm_at_solve as int,
        10_000_000,
        c.itm_change_threshold as int,
    ) {
        Some(RevalidationReason::ItmChange)
    } else if cached.optimal_activation_month - current_month
        <= c.activation_proximity_months as int {
        Some(RevalidationReason::ApproachingActivation)
    } else if spec_ratio_exceeds(
        current_av,
        cached.av_at_solve as int,
        100,
        c.av_deviation_threshold as int,
    ) {
        Some(RevalidationReason::AvDeviation)
    } else {
        None
    }
}

/// Whether a relative move exceeds a scaled threshold.
fn ratio_exceeds(current: i64, cached: i64, floor: i64, threshold: i64) -> (r: bool)
    requires
        0 <= current,
        0 <= cached,
        0 < floor,
        0 <= threshold <= RATE_SCALE,
    ensures
        r == spec_ratio_exceeds(current as int, cached as int, floor as int, threshold as int),
{
    let base: i64 = if cached > floor {
        cached
    } else {
        floor
    };
    let diff: i64 = if current >= cached {
        current - cached
    } else {
        cached - current
    };
    proof {
        crate::fixed::lemma_i64_product_fits(diff as int, RATE_SCALE as int);
        crate::fixed::lemma_i64_product_fits(threshold as int, base as int);
    }
    (diff as i128) * (RATE_SCALE as i128) > (threshold as i128) * (base as i128)
}

/// The cache entry for a policy, scanning entries from index `i`.
pub open spec fn spec_cache_find(
    entries: Seq<CachedReservePath>,
    policy_id: u64,
    i: int,
) -> Option<CachedReservePath>
    decreases entries.len() - i,
{
    if i < 0 || i >= entries.len() {
        None
    } else if entries[i].policy_id == policy_id {
        Some(entries[i])
    } else {
        spec_cache_find(entries, policy_id, i + 1)
    }
}

/// Cache of solved reserve paths by policy, with hit statistics.
#[derive(Debug)]
pub struct ReserveCache {
    /// Cached paths, at most one per policy.
    pub entries: Vec<CachedReservePath>,
    /// Revalidation criteria.
    pub criteria: RevalidationCriteria,
    /// Number of roll-forwards served.
    pub cache_hits: u64,
    /// Number of full solves forced by absence or staleness.
    pub cache_misses: u64,
    /// Number of re-solves forced by a revalidation trigger.
    pub revalidations: u64,
}

impl ReserveCache {
    /// One entry per policy, all entries well formed.
    pub open spec fn wf(self) -> bool {
        &&& self.criteria.wf()
        &&& forall|i: int| 0 <= i < self.entries@.len() ==> (#[trigger] self.entries@[i]).wf()
        &&& forall|i: int, j: int|
            0 <= i < j < self.entries@.len() ==> (#[trigger] self.entries@[i]).policy_id != (
            #[trigger] self.entries@[j]).policy_id
        &&& self.entries@.len() <= 1_000_000
    }

    /// An empty cache with the standard criteria.
    pub fn new() -> (r: Self)
        ensures
            r.wf(),
            r.entries@.len() == 0,
            r.cache_hits == 0,
            r.cache_misses == 0,
            r.revalidations == 0,
            r.criteria.periodic_revalidation_months == 12,
            r.criteria.itm_change_threshold == 100_000_000,
            r.criteria.activation_proximity_months == 6,
            r.criteria.av_deviation_threshold == 150_000_000,
    {
        ReserveCache {
            entries: Vec::new(),
            criteria: RevalidationCriteria::default_criteria(),
            cache_hits: 0,
            cache_misses: 0,
            revalidations: 0,
        }
    }

    /// An empty cache with custom criteria.
    pub fn with_criteria(criteria: RevalidationCriteria) -> (r: Self)
        requires
            criteria.wf(),
        ensures
            r.wf(),
            r.entries@.len() == 0,
            r.criteria == criteria,
            r.cache_hits == 0,
            r.cache_misses == 0,
            r.revalidations == 0,
    {
        ReserveCache {
            entries: Vec::new(),
            criteria,
            cache_hits: 0,
            cache_misses: 0,
            revalidations: 0,
        }
    }

    /// Cached path for a policy, if one is stored.
    pub fn get(&self, policy_id: u64) -> (r: Option<CachedReservePath>)
        requires
            self.wf(),
        ensures
            r == spec_cache_find(self.entries@, policy_id, 0),
            r matches Some(e) ==> e.wf() && e.policy_id == policy_id,
    {
        let n = self.entries.len();
        let mut i: usize = 0;
        while i < n
            invariant
                0 <= i <= n,
                n == self.entries@.len(),
                self.wf(),
                spec_cache_find(self.entries@, policy_id, 0) == spec_cache_find(
                    self.entries@,
                    policy_id,
                    i as int,
                ),
            decreases n - i,
        {
            let e = self.entries[i];
            if e.policy_id == policy_id {
                return Some(e);
            }
            i = i + 1;
        }
        None
    }

    /// Store a path, replacing any entry for the same policy.
    pub fn insert(&mut self, path: CachedReservePath)
        requires
            old(self).wf(),
            path.wf(),
            old(self).entries@.len() < 1_000_000,
        ensures
            final(self).wf(),
            final(self).entries@.len() <= old(self).entries@.len() + 1,
            spec_cache_find(final(self).entries@, path.policy_id, 0) == Some(path),
            final(self).criteria == old(self).criteria,
            final(self).cache_hits == old(self).cache_hits,
            final(self).cache_misses == old(self).cache_misses,
            final(self).revalidations == old(self).revalidations,
    {
        self.remove(path.policy_id);
        let ghost pruned = self.entries@;
        proof {
            lemma_cache_find_prepend(pruned, path);
            lemma_cache_find_none_absent(pruned, path.policy_id, 0);
        }
        self.entries.insert(0, path);
        proof {
            assert(self.entries@ =~= seq![path] + pruned);
        }
    }

    /// Remove the entry for a policy, returning it where one was stored.
    pub fn remove(&mut self, policy_id: u64) -> (r: Option<CachedReservePath>)
        requires
            old(self).wf(),
        ensures
            final(self).wf(),
            final(self).entries@.len() <= old(self).entries@.len(),
            spec_cache_find(final(self).entries@, policy_id, 0) is None,
            forall|id: u64| id != policy_id ==> #[trigger] spec_cache_find(
                final(self).entries@,
                id,
                0,
            ) == spec_cache_find(old(self).entries@, id, 0),
            final(self).criteria == old(self).criteria,
            final(self).cache_hits == old(self).cache_hits,
            final(self).cache_misses == old(self).cache_misses,
            final(self).revalidations == old(self).revalidations,
    {
        let n = self.entries.len();
        let mut i: usize = 0;
        while i < n
            invariant
                0 <= i <= n,
                n == self.entries@.len(),
                self.wf(),
                self.criteria == old(self).criteria,
                self.cache_hits == old(self).cache_hits,
                self.cache_misses == old(self).cache_misses,
                self.revalidations == old(self).revalidations,
                self.entries@ == old(self).entries@,
                forall|j: int| 0 <= j < i ==> (#[trigger] self.entries@[j]).policy_id != policy_id,
            decreases n - i,
        {
            let e = self.entries[i];
            if e.policy_id == policy_id {
                let removed = self.entries.remove(i);
                proof {
                    lemma_cache_find_remove(old(self).entries@, policy_id, i as int);
                }
                return Some(removed);
            }
            i = i + 1;
        }
        proof {
            lemma_cache_find_absent(self.entries@, policy_id, 0);
        }
        None
    }

    /// Clear all cached data and statistics.
    pub fn clear(&mut self)
        ensures
            final(self).wf() == old(self).criteria.wf(),
            final(self).entries@.len() == 0,
            final(self).cache_hits == 0,
            final(self).cache_misses == 0,
            final(self).revalidations == 0,
            final(self).criteria == old(self).criteria,
    {
        self.entries = Vec::new();
        self.cache_hits = 0;
        self.cache_misses = 0;
        self.revalidations = 0;
    }

    /// Number of cached entries.
    pub fn len(&self) -> (r: usize)
        ensures
            r == self.entries@.len(),
    {
        self.entries.len()
    }

    /// Whether the cache is empty.
    pub fn is_empty(&self) -> (r: bool)
        ensures
            r == (self.entries@.len() == 0),
    {
        self.entries.len() == 0
    }

    /// Record a roll-forward served from the cache; the counter saturates.
    pub fn record_hit(&mut self)
        ensures
            *final(self) == (ReserveCache {
                cache_hits: if old(self).cache_hits < u64::MAX {
                    (old(self).cache_hits + 1) as u64
                } else {
                    old(self).cache_hits
                },
                ..*old(self)
            }),
    {
        if self.cache_hits < u64::MAX {
            self.cache_hits = self.cache_hits + 1;
        }
    }

    /// Record a miss that forced a full solve; the counter saturates.
    pub fn record_miss(&mut self)
        ensures
            *final(self) == (ReserveCache {
                cache_misses: if old(self).cache_misses < u64::MAX {
                    (old(self).cache_misses + 1) as u64
                } else {
                    old(self).cache_misses
                },
                ..*old(self)
            }),
    {
        if self.cache_misses < u64::MAX {
            self.cache_misses = self.cache_misses + 1;
        }
    }

    /// Record a revalidation-forced re-solve; the counter saturates.
    pub fn record_revalidation(&mut self)
        ensures
            *final(self) == (ReserveCache {
                revalidations: if old(self).revalidations < u64::MAX {
                    (old(self).revalidations + 1) as u64
                } else {
                    old(self).revalidations
                },
                ..*old(self)
            }),
    {
        if self.revalidations < u64::MAX {
            self.revalidations = self.revalidations + 1;
        }
    }

    /// Cache hit rate, scaled: hits over hits plus misses, zero before any
    /// lookup.
    pub fn hit_rate(&self) -> (r: i64)
        ensures
            self.cache_hits + self.cache_misses == 0 ==> r == 0,
            self.cache_hits + self.cache_misses > 0 ==> r == (self.cache_hits as int
                * RATE_SCALE as int) / (self.cache_hits + self.cache_misses),
            0 <= r <= RATE_SCALE,
    {
        let hits: u128 = self.cache_hits as u128;
        let misses: u128 = self.cache_misses as u128;
        let total: u128 = hits + misses;
        if total == 0 {
            0
        } else {
            proof {
                vstd::arithmetic::div_mod::lemma_div_pos_is_pos(
                    hits as int * RATE_SCALE as int,
                    total as int,
                );
                vstd::arithmetic::div_mod::lemma_div_is_ordered(
                    hits as int * RATE_SCALE as int,
                    total as int * RATE_SCALE as int,
                    total as int,
                );
                vstd::arithmetic::div_mod::lemma_div_multiples_vanish(
                    RATE_SCALE as int,
                    total as int,
                );
                vstd::arithmetic::mul::lemma_mul_inequality(
                    hits as int,
                    total as int,
                    RATE_SCALE as int,
                );
                vstd::arithmetic::mul::lemma_mul_is_commutative(hits as int, RATE_SCALE as int);
                vstd::arithmetic::mul::lemma_mul_is_commutative(total as int, RATE_SCALE as int);
                vstd::arithmetic::mul::lemma_mul_nonnegative(hits as int, RATE_SCALE as int);
            }
            ((hits * (RATE_SCALE as u128)) / total) as i64
        }
    }
}

/// Prepending an entry makes it the one found for its policy.
proof fn lemma_cache_find_prepend(entries: Seq<CachedReservePath>, path: CachedReservePath)
    ensures
        spec_cache_find(seq![path] + entries, path.policy_id, 0) == Some(path),
        forall|id: u64| id != path.policy_id ==> #[trigger] spec_cache_find(
            seq![path] + entries,
            id,
            0,
        ) == spec_cache_find(entries, id, 0),
{
    let s = seq![path] + entries;
    assert(s[0] == path);
    assert forall|id: u64| id != path.policy_id implies #[trigger] spec_cache_find(s, id, 0)
        == spec_cache_find(entries, id, 0) by {
        lemma_cache_find_shift(s, entries, id, 0);
    }
}

/// Scanning a prepended sequence from one matches scanning the tail.
proof fn lemma_cache_find_shift(
    s: Seq<CachedReservePath>,
    entries: Seq<CachedReservePath>,
    id: u64,
    i: int,
)
    requires
        s.len() == entries.len() + 1,
        forall|j: int| 0 <= j < entries.len() ==> s[j + 1] == entries[j],
        0 <= i <= entries.len(),
    ensures
        spec_cache_find(s, id, i + 1) == spec_cache_find(entries, id, i),
    decreases entries.len() - i,
{
    if i < entries.len() {
        assert(s[i + 1] == entries[i]);
        lemma_cache_find_shift(s, entries, id, i + 1);
    }
}

/// A scan that finds nothing passed over no entry for the policy.
proof fn lemma_cache_find_none_absent(entries: Seq<CachedReservePath>, id: u64, i: int)
    requires
        0 <= i <= entries.len(),
        spec_cache_find(entries, id, i) is None,
    ensures
        forall|j: int| i <= j < entries.len() ==> (#[trigger] entries[j]).policy_id != id,
    decreases entries.len() - i,
{
    if i < entries.len() {
        lemma_cache_find_none_absent(entries, id, i + 1);
    }
}

/// A scan over entries that all miss the policy finds nothing.
proof fn lemma_cache_find_absent(entries: Seq<CachedReservePath>, id: u64, i: int)
    requires
        0 <= i <= entries.len(),
        forall|j: int| i <= j < entries.len() ==> (#[trigger] entries[j]).policy_id != id,
    ensures
        spec_cache_find(entries, id, i) is None,
    decreases entries.len() - i,
{
    if i < entries.len() {
        lemma_cache_find_absent(entries, id, i + 1);
    }
}

/// Removing the first entry for a policy, from a sequence where no earlier
/// entry matches it and entries are unique by policy, leaves nothing for that
/// policy and everything else in place.
proof fn lemma_cache_find_remove(entries: Seq<CachedReservePath>, id: u64, k: int)
    requires
        0 <= k < entries.len(),
        entries[k].policy_id == id,
        forall|j: int| 0 <= j < k ==> (#[trigger] entries[j]).policy_id != id,
        forall|i: int, j: int| 0 <= i < j < entries.len() ==> (#[trigger] entries[i]).policy_id
            != (#[trigger] entries[j]).policy_id,
    ensures
        spec_cache_find(entries.remove(k), id, 0) is None,
        forall|other: u64| other != id ==> #[trigger] spec_cache_find(entries.remove(k), other, 0)
            == spec_cache_find(entries, other, 0),
{
    let removed = entries.remove(k);
    assert forall|j: int| 0 <= j < removed.len() implies (#[trigger] removed[j]).policy_id
        != id by {
        if j < k {
        } else {
            assert(removed[j] == entries[j + 1]);
        }
    }
    lemma_cache_find_absent(removed, id, 0);
    assert forall|other: u64| other != id implies #[trigger] spec_cache_find(removed, other, 0)
        == spec_cache_find(entries, other, 0) by {
        lemma_cache_find_remove_other(entries, removed, id, other, k, 0);
    }
}

/// Scanning for a different policy skips the removed entry.
proof fn lemma_cache_find_remove_other(
    entries: Seq<CachedReservePath>,
    removed: Seq<CachedReservePath>,
    id: u64,
    other: u64,
    k: int,
    i: int,
)
    requires
        0 <= k < entries.len(),
        removed == entries.remove(k),
        entries[k].policy_id == id,
        other != id,
        0 <= i <= entries.len(),
    ensures
        spec_cache_find(removed, other, if i <= k {
            i
        } else {
            i - 1
        }) == spec_cache_find(entries, other, i),
    decreases entries.len() - i,
{
    if i < entries.len() {
        if i < k {
            assert(removed[i] == entries[i]);
            lemma_cache_find_remove_other(entries, removed, id, other, k, i + 1);
        } else if i == k {
            lemma_cache_find_remove_other(entries, removed, id, other, k, i + 1);
        } else {
            assert(removed[i - 1] == entries[i]);
            lemma_cache_find_remove_other(entries, removed, id, other, k, i + 1);
        }
    }
}

} // verus!
