//! The flush plan: how a total record count is cut into batches.
//!
//! The shape of a run — how many flushes happen and how large each one
//! is — depends on the requested total and the batch capacity alone,
//! never on the randomized record contents.

use vstd::prelude::*;
use vstd::arithmetic::div_mod::{lemma_basic_div, lemma_div_plus_one};

verus! {

/// The number of flush operations a run performs:
/// `ceil(total / capacity)`, and zero when `total` is zero.
pub open spec fn num_flushes(total: int, capacity: int) -> int
    recommends
        capacity >= 1,
        total >= 0,
{
    (total + capacity - 1) / capacity
}

/// The sizes of the successive flushes for a run over `total` records
/// with the given batch capacity: full batches first, then one final
/// partial batch if anything is left over.
pub open spec fn flush_plan(total: int, capacity: int) -> Seq<int>
    recommends
        capacity >= 1,
        total >= 0,
    decreases total,
    when capacity >= 1 && total >= 0
{
    if total <= 0 {
        Seq::empty()
    } else if total <= capacity {
        seq![total]
    } else {
        seq![capacity] + flush_plan(total - capacity, capacity)
    }
}

/// The sum of a sequence of integers.
pub open spec fn seq_sum(s: Seq<int>) -> int
    decreases s.len(),
{
    if s.len() == 0 {
        0
    } else {
        s[0] + seq_sum(s.drop_first())
    }
}

/// The plan's shape is fully determined by `(total, capacity)`:
/// exactly `ceil(total / capacity)` flushes, every flush before the last
/// a full batch, the last one whatever remains, every flush non-empty
/// and within capacity, and the sizes adding up to `total`.
pub proof fn lemma_flush_plan_shape(total: int, capacity: int)
    requires
        capacity >= 1,
        total >= 0,
    ensures
        flush_plan(total, capacity).len() == num_flushes(total, capacity),
        forall|i: int|
            0 <= i < flush_plan(total, capacity).len() - 1 ==> #[trigger] flush_plan(
                total,
                capacity,
            )[i] == capacity,
        total > 0 ==> flush_plan(total, capacity)[flush_plan(total, capacity).len() - 1] == total
            - (flush_plan(total, capacity).len() - 1) * capacity,
        forall|i: int|
            0 <= i < flush_plan(total, capacity).len() ==> 1 <= #[trigger] flush_plan(
                total,
                capacity,
            )[i] <= capacity,
        seq_sum(flush_plan(total, capacity)) == total,
    decreases total,
{
    let p = flush_plan(total, capacity);
    if total == 0 {
        lemma_basic_div(capacity - 1, capacity);
    } else if total <= capacity {
        lemma_basic_div(total - 1, capacity);
        lemma_div_plus_one(total - 1, capacity);
        assert(p =~= seq![total]);
        assert(p.drop_first() =~= Seq::<int>::empty());
        assert(seq_sum(Seq::<int>::empty()) == 0);
        assert(seq_sum(p) == total);
        assert(p[p.len() - 1] == total - (p.len() - 1) * capacity);
    } else {
        lemma_flush_plan_shape(total - capacity, capacity);
        lemma_div_plus_one(total - 1, capacity);
        let q = flush_plan(total - capacity, capacity);
        assert(p =~= seq![capacity] + q);
        assert(p.drop_first() =~= q);
        assert(seq_sum(p) == capacity + seq_sum(q));
        assert forall|i: int| 0 <= i < p.len() - 1 implies #[trigger] p[i] == capacity by {
            if i > 0 {
                assert(p[i] == q[i - 1]);
            }
        }
        assert forall|i: int| 0 <= i < p.len() implies 1 <= #[trigger] p[i] <= capacity by {
            if i > 0 {
                assert(p[i] == q[i - 1]);
            }
        }
        assert(p[p.len() - 1] == q[q.len() - 1]);
        let a = p.len() as int;
        let b = q.len() as int;
        assert(a == b + 1);
        assert((a - 1) * capacity == (b - 1) * capacity + capacity) by (nonlinear_arith)
            requires
                a == b + 1,
        ;
        assert(q[q.len() - 1] == (total - capacity) - (b - 1) * capacity);
        assert(p[p.len() - 1] == total - (a - 1) * capacity);
    }
}

/// Computes the flush plan: the exact batch sizes, in order, that a run
/// over `total` records with the given capacity will flush.
pub fn flush_sizes(total: usize, capacity: usize) -> (r: Vec<usize>)
    requires
        capacity >= 1,
    ensures
        r@.map_values(|x: usize| x as int) == flush_plan(total as int, capacity as int),
{
    let mut r: Vec<usize> = Vec::new();
    let mut remaining: usize = total;
    while remaining > 0
        invariant
            capacity >= 1,
            r@.map_values(|x: usize| x as int) + flush_plan(remaining as int, capacity as int)
                =~= flush_plan(total as int, capacity as int),
        decreases remaining,
    {
        let k: usize = if remaining >= capacity {
            capacity
        } else {
            remaining
        };
        let ghost prev = r@;
        r.push(k);
        proof {
            assert(r@.map_values(|x: usize| x as int) =~= prev.map_values(|x: usize| x as int)
                + seq![k as int]);
            assert(flush_plan(remaining as int, capacity as int) =~= seq![k as int] + flush_plan(
                remaining as int - k as int,
                capacity as int,
            ));
        }
        remaining = remaining - k;
    }
    proof {
        assert(r@.map_values(|x: usize| x as int) =~= flush_plan(
            total as int,
            capacity as int,
        ));
    }
    r
}

} // verus!
