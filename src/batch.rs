//! Cutting an input domain into batches that fit a device-memory budget.

use vstd::prelude::*;
use vstd::arithmetic::div_mod::{
    lemma_fundamental_div_mod, lemma_div_is_ordered_by_denominator, lemma_mod_multiples_basic,
};
use vstd::arithmetic::mul::{
    lemma_mul_inequality, lemma_mul_is_distributive_sub, lemma_mul_is_distributive_add,
};

verus! {

/// Threads per device-side group; every batch but the last holds a multiple of it.
pub const GROUP_SIZE: usize = 128;

/// The most device memory a run uses, whatever the device offers.
pub const SAFE_MEMORY_LIMIT: usize = 0x2000_0000;

/// The device memory a run may use: half of the device's memory, capped at the safe limit.
pub fn memory_budget(total_memory: usize) -> (r: usize)
    ensures
        r == if total_memory / 2 < SAFE_MEMORY_LIMIT {
            total_memory / 2
        } else {
            SAFE_MEMORY_LIMIT
        },
{
    let half = total_memory / 2;
    if half < SAFE_MEMORY_LIMIT {
        half
    } else {
        SAFE_MEMORY_LIMIT
    }
}

/// The least multiple of `multiple` that is at least `value`.
pub fn next_multiple_of(value: usize, multiple: usize) -> (r: usize)
    requires
        multiple > 0,
        value + multiple - 1 <= usize::MAX,
    ensures
        r == ((value + multiple - 1) / multiple as int) * multiple,
        r % multiple == 0,
        value <= r < value + multiple,
{
    let q = (value + (multiple - 1)) / multiple;
    proof {
        lemma_fundamental_div_mod((value + multiple - 1) as int, multiple as int);
        lemma_mod_multiples_basic(q as int, multiple as int);
        assert(q * multiple == multiple * q) by (nonlinear_arith);
    }
    assert(q * multiple <= value + multiple - 1);
    q * multiple
}

/// How a domain of `total_elements` inputs, each taking `element_size` bytes of input and
/// output, is cut into batches: `iterations` batches of `batch_bytes` bytes, the last of which
/// takes whatever remains.
pub struct BatchPlan {
    pub total_elements: usize,
    pub element_size: usize,
    pub iterations: usize,
    pub batch_bytes: usize,
}

impl BatchPlan {
    /// The plan's numbers fit together: every batch but the last has the same whole number
    /// of groups, and the last is not empty.
    pub open spec fn wf(self) -> bool {
        &&& self.element_size > 0
        &&& self.iterations >= 1
        &&& self.batch_bytes > 0
        &&& self.total_elements * self.element_size <= usize::MAX
        &&& self.batch_bytes as int % (GROUP_SIZE * self.element_size) == 0
        &&& self.batch_bytes * (self.iterations - 1) < self.total_elements * self.element_size
    }

    /// The number of inputs in a full batch.
    pub open spec fn spec_batch_elements(self) -> int {
        self.batch_bytes as int / self.element_size as int
    }

    /// The first input of batch `i`.
    pub open spec fn spec_start(self, i: int) -> int {
        i * self.spec_batch_elements()
    }

    /// The number of inputs in batch `i`.
    pub open spec fn spec_count(self, i: int) -> int {
        if i == self.iterations - 1 {
            self.total_elements - self.spec_batch_elements() * (self.iterations - 1)
        } else {
            self.spec_batch_elements()
        }
    }

    /// The first input of batch `iteration` and the number of inputs in it.
    pub fn batch(&self, iteration: usize) -> (r: (usize, usize))
        requires
            self.wf(),
            iteration < self.iterations,
        ensures
            r.0 as int == self.spec_start(iteration as int),
            r.1 as int == self.spec_count(iteration as int),
    {
        proof {
            self.lemma_layout();
        }
        let per = self.batch_bytes / self.element_size;
        proof {
            lemma_mul_inequality(iteration as int, (self.iterations - 1) as int, per as int);
            assert(per * (self.iterations - 1) == (self.iterations - 1) * per) by (nonlinear_arith);
        }
        let start = iteration * per;
        let count = if iteration == self.iterations - 1 {
            self.total_elements - per * (self.iterations - 1)
        } else {
            per
        };
        (start, count)
    }

    proof fn lemma_layout(self)
        requires
            self.wf(),
        ensures
            self.batch_bytes == self.spec_batch_elements() * self.element_size,
            self.spec_batch_elements() * (self.iterations - 1) < self.total_elements,
            self.spec_batch_elements() % GROUP_SIZE as int == 0,
    {
        let es = self.element_size as int;
        let m = GROUP_SIZE * es;
        let k = self.batch_bytes as int / m;
        lemma_fundamental_div_mod(self.batch_bytes as int, m);
        assert(self.batch_bytes == (k * GROUP_SIZE) * es) by (nonlinear_arith)
            requires
                self.batch_bytes == m * k,
                m == GROUP_SIZE * es,
        ;
        vstd::arithmetic::div_mod::lemma_div_by_multiple(k * GROUP_SIZE, es);
        lemma_mod_multiples_basic(k, GROUP_SIZE as int);
        assert(k * GROUP_SIZE == GROUP_SIZE * k) by (nonlinear_arith);
        let per = self.spec_batch_elements();
        assert(per * (self.iterations - 1) * es < self.total_elements * es) by (nonlinear_arith)
            requires
                self.batch_bytes * (self.iterations - 1) < self.total_elements * es,
                self.batch_bytes == per * es,
        ;
        if per * (self.iterations - 1) >= self.total_elements {
            lemma_mul_inequality(self.total_elements as int, per * (self.iterations - 1), es);
        }
    }

    /// The batches cover the domain in order, with neither gap nor overlap: the first starts
    /// at 0, each starts where the one before ended, every batch is non-empty, every batch but
    /// the last is a whole number of groups, and the last ends at the domain's end.
    pub proof fn lemma_partition(self)
        requires
            self.wf(),
        ensures
            self.spec_start(0) == 0,
            forall|i: int|
                0 <= i < self.iterations - 1 ==> #[trigger] self.spec_start(i + 1) == self.spec_start(
                    i,
                ) + self.spec_count(i) && self.spec_count(i) % GROUP_SIZE as int == 0,
            forall|i: int| 0 <= i < self.iterations ==> #[trigger] self.spec_count(i) > 0,
            self.spec_start(self.iterations - 1) + self.spec_count(self.iterations - 1)
                == self.total_elements,
    {
        self.lemma_layout();
        let per = self.spec_batch_elements();
        if per <= 0 {
            assert(per * self.element_size <= 0) by (nonlinear_arith)
                requires
                    per <= 0,
                    self.element_size > 0,
            ;
        }
        assert(per > 0);
        assert forall|i: int| 0 <= i < self.iterations - 1 implies #[trigger] self.spec_start(i + 1)
            == self.spec_start(i) + self.spec_count(i) by {
            lemma_mul_is_distributive_add(per, i, 1);
            assert((i + 1) * per == i * per + per) by (nonlinear_arith);
        }
        assert forall|i: int| 0 <= i < self.iterations implies #[trigger] self.spec_count(i) > 0 by {
        }
        assert(per * (self.iterations - 1) == (self.iterations - 1) * per) by (nonlinear_arith);
    }
}

/// Plans the batches for `total_elements` inputs of `element_size` bytes within a budget of
/// `max_memory` bytes: as many batches as the budget fits into the whole, at least one, each
/// rounded up to whole groups. `None` when the domain is not a whole number of groups, when
/// the sizes overflow, or when rounding up would leave nothing for the last batch.
pub fn plan_batches(total_elements: usize, element_size: usize, max_memory: usize) -> (r: Option<BatchPlan>)
    requires
        element_size > 0,
        max_memory > 0,
    ensures
        r is Some <==> (total_elements % GROUP_SIZE == 0 && total_elements > 0
            && total_elements * element_size + GROUP_SIZE * element_size <= usize::MAX
            && plan_fits(total_elements as int, element_size as int, max_memory as int)),
        r matches Some(p) ==> p.wf() && p.total_elements == total_elements && p.element_size
            == element_size && p.iterations == plan_iterations(total_elements as int, element_size as int, max_memory as int)
            && p.batch_bytes == plan_batch_bytes(total_elements as int, element_size as int, max_memory as int),
{
    if total_elements % GROUP_SIZE != 0 || total_elements == 0 {
        return None;
    }
    if element_size > usize::MAX / GROUP_SIZE {
        proof {
            assert(total_elements * element_size + GROUP_SIZE * element_size > usize::MAX) by (nonlinear_arith)
                requires
                    element_size > usize::MAX as int / GROUP_SIZE as int,
                    total_elements > 0,
            ;
        }
        return None;
    }
    let multiple = GROUP_SIZE * element_size;
    if total_elements > (usize::MAX - multiple) / element_size {
        proof {
            assert(total_elements * element_size + multiple > usize::MAX) by (nonlinear_arith)
                requires
                    total_elements > (usize::MAX - multiple) as int / element_size as int,
                    element_size > 0,
                    multiple <= usize::MAX,
            ;
        }
        return None;
    }
    assert(total_elements * element_size + multiple <= usize::MAX) by (nonlinear_arith)
        requires
            total_elements <= (usize::MAX - multiple) as int / element_size as int,
            element_size > 0,
            multiple <= usize::MAX,
    ;
    let required = total_elements * element_size;
    let q = required / max_memory;
    let iterations = if q > 1 {
        q
    } else {
        1
    };
    let share = required / iterations;
    proof {
        lemma_div_is_ordered_by_denominator(required as int, 1, iterations as int);
        lemma_div_is_ordered_by_denominator(required as int, 1, max_memory as int);
        assert(required >= 1) by (nonlinear_arith)
            requires
                total_elements > 0,
                element_size > 0,
                required == total_elements * element_size,
        ;
        vstd::arithmetic::div_mod::lemma_div_is_ordered(iterations as int, required as int, iterations as int);
        vstd::arithmetic::div_mod::lemma_div_basics(iterations as int);
    }
    assert(share >= 1);
    let batch_bytes = next_multiple_of(share, multiple);
    let last = iterations - 1;
    if last > 0 && batch_bytes > (required - 1) / last {
        proof {
            assert(batch_bytes * last > required - 1) by (nonlinear_arith)
                requires
                    batch_bytes > (required - 1) as int / last as int,
                    last > 0,
                    required >= 1,
            ;
        }
        return None;
    }
    proof {
        if last > 0 {
            assert(batch_bytes * last <= required - 1) by (nonlinear_arith)
                requires
                    batch_bytes <= (required - 1) as int / last as int,
                    last > 0,
                    required >= 1,
            ;
        }
        assert(required >= 1) by (nonlinear_arith)
            requires
                total_elements > 0,
                element_size > 0,
                required == total_elements * element_size,
        ;
    }
    Some(BatchPlan { total_elements, element_size, iterations, batch_bytes })
}

pub open spec fn plan_iterations(total_elements: int, element_size: int, max_memory: int) -> int {
    let q = (total_elements * element_size) / max_memory;
    if q > 1 {
        q
    } else {
        1
    }
}

/// The size of a full batch: an equal share of the whole, rounded up to whole groups.
pub open spec fn plan_batch_bytes(total_elements: int, element_size: int, max_memory: int) -> int {
    let share = (total_elements * element_size) / plan_iterations(total_elements, element_size, max_memory);
    let m = GROUP_SIZE * element_size;
    ((share + m - 1) / m) * m
}

/// Whether the full batches leave room for a non-empty last batch.
pub open spec fn plan_fits(total_elements: int, element_size: int, max_memory: int) -> bool {
    plan_batch_bytes(total_elements, element_size, max_memory) * (plan_iterations(
        total_elements,
        element_size,
        max_memory,
    ) - 1) < total_elements * element_size
}

} // verus!
