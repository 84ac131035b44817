//! Bounded-concurrency batch bookkeeping: which item to launch next, how
//! many are in flight, and the guarantee that every item's outcome is
//! collected exactly once. The caller performs the actual work; the
//! scheduler only decides and records.

use vstd::prelude::*;
use vstd::set_lib::{lemma_int_range, lemma_subset_equality, set_int_range};

verus! {

/// Every index a completed batch must hold appears exactly once.
proof fn lemma_indices_complete(s: Seq<int>, n: int)
    requires
        s.no_duplicates(),
        s.len() == n,
        forall|i: int| 0 <= i < s.len() ==> 0 <= #[trigger] s[i] < n,
    ensures
        forall|k: int| 0 <= k < n ==> s.contains(k),
{
    s.unique_seq_to_set();
    lemma_int_range(0, n);
    assert(s.to_set().subset_of(set_int_range(0, n))) by {
        assert forall|x: int| s.to_set().contains(x) implies set_int_range(0, n).contains(x) by {
            let i = choose|i: int| 0 <= i < s.len() && s[i] == x;
            assert(0 <= s[i] < n);
        }
    }
    lemma_subset_equality(s.to_set(), set_int_range(0, n));
    assert forall|k: int| 0 <= k < n implies s.contains(k) by {
        assert(set_int_range(0, n).contains(k));
        assert(s.to_set().contains(k));
    }
}

/// Runs a batch of `total` numbered items with at most `limit` of them in
/// flight at once. Items are launched in order `0, 1, ...`; completions
/// may arrive in any order and never cancel the rest of the batch.
pub struct BatchScheduler<R> {
    /// How many items the batch has.
    pub total: usize,
    /// The concurrency bound.
    pub limit: usize,
    /// How many items have been launched so far.
    pub launched: usize,
    /// The launched, not yet completed items.
    pub in_flight: Vec<usize>,
    /// Each completed item with its outcome.
    pub done: Vec<(usize, R)>,
}

impl<R> BatchScheduler<R> {
    /// The indices of the collected outcomes.
    pub open spec fn done_indices(self) -> Seq<int> {
        self.done@.map_values(|p: (usize, R)| p.0 as int)
    }

    /// The scheduler's invariant: the bound is respected, items below
    /// `launched` are split between `in_flight` and `done` without
    /// duplication, and nothing beyond `launched` is tracked.
    pub open spec fn wf(self) -> bool {
        &&& self.limit >= 1
        &&& self.launched <= self.total
        &&& self.in_flight@.len() <= self.limit
        &&& self.in_flight@.no_duplicates()
        &&& self.done_indices().no_duplicates()
        &&& forall|i: int|
            0 <= i < self.in_flight@.len() ==> (#[trigger] self.in_flight@[i]) < self.launched
        &&& forall|i: int|
            0 <= i < self.done@.len() ==> (#[trigger] self.done@[i]).0 < self.launched
        &&& forall|i: int, j: int|
            0 <= i < self.in_flight@.len() && 0 <= j < self.done@.len()
                ==> #[trigger] self.in_flight@[i] != (#[trigger] self.done@[j]).0
        &&& self.in_flight@.len() + self.done@.len() == self.launched
    }

    /// A fresh batch: nothing launched, nothing done.
    pub fn new(total: usize, limit: usize) -> (r: BatchScheduler<R>)
        requires
            limit >= 1,
        ensures
            r.wf(),
            r.total == total,
            r.limit == limit,
            r.launched == 0,
            r.in_flight@.len() == 0,
            r.done@.len() == 0,
    {
        let r = BatchScheduler {
            total,
            limit,
            launched: 0,
            in_flight: Vec::new(),
            done: Vec::new(),
        };
        proof {
            assert(r.done_indices() =~= Seq::<int>::empty());
        }
        r
    }

    /// Whether one more item may be launched now: some item is still
    /// unlaunched and the concurrency window has room.
    pub fn can_launch(&self) -> (r: bool)
        ensures
            r == (self.launched < self.total && self.in_flight@.len() < self.limit),
    {
        self.launched < self.total && self.in_flight.len() < self.limit
    }

    /// Launches the next item and returns its index. The concurrency
    /// bound still holds afterwards.
    pub fn launch(&mut self) -> (r: usize)
        requires
            old(self).wf(),
            old(self).launched < old(self).total,
            old(self).in_flight@.len() < old(self).limit,
        ensures
            final(self).wf(),
            r == old(self).launched,
            final(self).launched == old(self).launched + 1,
            final(self).in_flight@ == old(self).in_flight@.push(old(self).launched),
            final(self).done == old(self).done,
            final(self).total == old(self).total,
            final(self).limit == old(self).limit,
    {
        let idx = self.launched;
        self.in_flight.push(idx);
        self.launched = self.launched + 1;
        idx
    }

    /// Records one in-flight item's outcome, identified by its slot in
    /// `in_flight`, and returns the item's index.
    pub fn complete(&mut self, slot: usize, result: R) -> (r: usize)
        requires
            old(self).wf(),
            slot < old(self).in_flight@.len(),
        ensures
            final(self).wf(),
            r == old(self).in_flight@[slot as int],
            final(self).in_flight@ == old(self).in_flight@.remove(slot as int),
            final(self).done@ == old(self).done@.push((r, result)),
            final(self).launched == old(self).launched,
            final(self).total == old(self).total,
            final(self).limit == old(self).limit,
    {
        let idx = self.in_flight.remove(slot);
        self.done.push((idx, result));
        proof {
            let pre = old(self).in_flight@;
            assert forall|i: int, j: int|
                0 <= i < j < self.in_flight@.len() implies self.in_flight@[i]
                != self.in_flight@[j] by {
                assert(self.in_flight@[i] == (if i < slot {
                    pre[i]
                } else {
                    pre[i + 1]
                }));
                assert(self.in_flight@[j] == (if j < slot {
                    pre[j]
                } else {
                    pre[j + 1]
                }));
            }
            assert(self.done_indices() =~= old(self).done_indices().push(idx as int));
            assert forall|i: int, j: int|
                0 <= i < j < self.done_indices().len() implies self.done_indices()[i]
                != self.done_indices()[j] by {
                if j == self.done_indices().len() - 1 {
                    assert(self.done_indices()[i] == old(self).done@[i].0 as int);
                    assert(old(self).in_flight@[slot as int] != old(self).done@[i].0);
                }
            }
        }
        idx
    }

    /// Whether every item has been launched and completed.
    pub fn is_finished(&self) -> (r: bool)
        ensures
            r == (self.launched == self.total && self.in_flight@.len() == 0),
    {
        self.launched == self.total && self.in_flight.len() == 0
    }

    /// Hands out the collected outcomes of a finished batch: one entry per
    /// item, each index below `total` exactly once, with the outcome that
    /// was recorded for it.
    pub fn into_results(self) -> (r: Vec<(usize, R)>)
        requires
            self.wf(),
            self.launched == self.total,
            self.in_flight@.len() == 0,
        ensures
            r == self.done,
            r@.len() == self.total,
            r@.map_values(|p: (usize, R)| p.0 as int).no_duplicates(),
            forall|i: int| 0 <= i < r@.len() ==> (#[trigger] r@[i]).0 < self.total,
            forall|k: int| 0 <= k < self.total ==> #[trigger] self.done_indices().contains(k),
    {
        proof {
            lemma_indices_complete(self.done_indices(), self.total as int);
        }
        self.done
    }
}

/// The scheduling law: a well-formed scheduler never has more items in
/// flight than its concurrency bound.
pub proof fn lemma_in_flight_bounded<R>(s: BatchScheduler<R>)
    requires
        s.wf(),
    ensures
        s.in_flight@.len() <= s.limit,
{
}

} // verus!
