//! Sharding a test list and counting the results of a run.

use vstd::prelude::*;
use vstd::arithmetic::div_mod::lemma_div_is_ordered;
use vstd::arithmetic::mul::lemma_mul_inequality;

verus! {

/// The slice `start .. end` of a sorted list of `len` tests that shard `index` of `count`
/// runs: `index * len / count .. (index + 1) * len / count`.
pub fn shard_range(index: usize, count: usize, len: usize) -> (r: (usize, usize))
    requires
        index < count,
        count * len <= usize::MAX,
    ensures
        r.0 as int == index * len / count as int,
        r.1 as int == (index + 1) * len / count as int,
        r.0 <= r.1 <= len,
{
    proof {
        lemma_mul_inequality((index + 1) as int, count as int, len as int);
        lemma_mul_inequality(index as int, (index + 1) as int, len as int);
        lemma_div_is_ordered((index * len) as int, ((index + 1) * len) as int, count as int);
        lemma_div_is_ordered(((index + 1) * len) as int, (count * len) as int, count as int);
        vstd::arithmetic::div_mod::lemma_div_multiples_vanish(len as int, count as int);
        assert(count * len == len * count) by (nonlinear_arith);
    }
    let start = index * len / count;
    let end = (index + 1) * len / count;
    (start, end)
}

/// The shards cover the whole list: the first starts at 0 and the last ends at the list's
/// end. (Shard `i` ends at `(i + 1) * len / count`, which is where shard `i + 1` starts.)
pub proof fn lemma_shards_partition(count: nat, len: nat)
    requires
        count > 0,
    ensures
        0 * len / count == 0,
        count * len / count == len,
{
    vstd::arithmetic::div_mod::lemma_div_multiples_vanish(len as int, count as int);
    assert(count * len == len * count) by (nonlinear_arith);
}

/// Pass and fail counts of a test run.
pub struct Tally {
    pub total_cases: u64,
    pub passed_cases: u64,
    pub failed: bool,
}

impl Tally {
    pub fn new() -> (r: Tally)
        ensures
            r.total_cases == 0,
            r.passed_cases == 0,
            !r.failed,
    {
        Tally { total_cases: 0, passed_cases: 0, failed: false }
    }

    /// Counts one checked element and says whether the run stops here: only on a failure
    /// when `fail_fast` is set.
    pub fn record(&mut self, passed: bool, fail_fast: bool) -> (stop: bool)
        requires
            old(self).total_cases < u64::MAX,
            old(self).passed_cases <= old(self).total_cases,
        ensures
            final(self).total_cases == old(self).total_cases + 1,
            final(self).passed_cases == old(self).passed_cases + if passed {
                1int
            } else {
                0int
            },
            final(self).failed == (old(self).failed || !passed),
            final(self).passed_cases <= final(self).total_cases,
            stop == (!passed && fail_fast),
    {
        self.total_cases = self.total_cases + 1;
        if passed {
            self.passed_cases = self.passed_cases + 1;
        } else {
            self.failed = true;
        }
        !passed && fail_fast
    }
}

} // verus!
