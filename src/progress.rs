//! The counter of completed requests that all workers of a batch share.
use vstd::prelude::*;
use vstd::set_lib::{lemma_int_range, set_int_range};

verus! {

/// How many of a batch's requests have completed, out of how many. The count
/// changes only through `increment_and_get`.
#[derive(Debug, Clone, Copy, PartialEq, Eq, Structural)]
pub struct ProgressBar {
    current_value: usize,
    total_value: usize,
}

impl ProgressBar {
    /// How many requests have completed.
    pub closed spec fn current(self) -> usize {
        self.current_value
    }

    /// How many requests the batch has.
    pub closed spec fn total(self) -> usize {
        self.total_value
    }

    /// A counter for `total` requests, none of them completed yet.
    pub closed spec fn fresh(total: usize) -> ProgressBar {
        ProgressBar { current_value: 0, total_value: total }
    }

    /// The counter after one more completed request.
    pub closed spec fn incremented(self) -> ProgressBar {
        ProgressBar { current_value: (self.current_value + 1) as usize, ..self }
    }

    /// The counter never passes its total, and the total is positive.
    pub open spec fn wf(self) -> bool {
        &&& self.total() >= 1
        &&& self.current() <= self.total()
    }

    /// A counter for `total` requests, none of them completed yet.
    pub fn new(total: usize) -> (r: ProgressBar)
        requires
            total >= 1,
        ensures
            r.wf(),
            r == ProgressBar::fresh(total),
            r.current() == 0,
            r.total() == total,
    {
        ProgressBar { current_value: 0, total_value: total }
    }

    /// Counts one more completed request and returns the snapshot
    /// `(completed, total)` taken right after.
    pub fn increment_and_get(&mut self) -> (r: (usize, usize))
        requires
            old(self).wf(),
            old(self).current() < old(self).total(),
        ensures
            final(self).wf(),
            *final(self) == old(self).incremented(),
            final(self).current() == old(self).current() + 1,
            final(self).total() == old(self).total(),
            r == (final(self).current(), final(self).total()),
    {
        self.current_value = self.current_value + 1;
        (self.current_value, self.total_value)
    }

    /// How many requests have completed.
    pub fn current_value(&self) -> (r: usize)
        ensures
            r == self.current(),
    {
        self.current_value
    }

    /// How many requests the batch has.
    pub fn total_value(&self) -> (r: usize)
        ensures
            r == self.total(),
    {
        self.total_value
    }

    /// Whether every request of the batch has completed.
    pub fn is_complete(&self) -> (r: bool)
        ensures
            r == (self.current() == self.total()),
    {
        self.current_value == self.total_value
    }
}

/// The counter after `k` increments, one at a time.
pub open spec fn after_increments(p: ProgressBar, k: nat) -> ProgressBar
    decreases k,
{
    if k == 0 {
        p
    } else {
        after_increments(p, (k - 1) as nat).incremented()
    }
}

/// The completed counts that `k` increments in a row return, in order.
pub open spec fn returned_counts(p: ProgressBar, k: nat) -> Seq<int>
    decreases k,
{
    if k == 0 {
        Seq::empty()
    } else {
        returned_counts(p, (k - 1) as nat).push(
            after_increments(p, (k - 1) as nat).incremented().current() as int,
        )
    }
}

proof fn lemma_runs(p: ProgressBar, k: nat)
    requires
        p.wf(),
        p.current() + k <= p.total(),
    ensures
        after_increments(p, k).wf(),
        after_increments(p, k).current() == p.current() + k,
        after_increments(p, k).total() == p.total(),
        returned_counts(p, k).len() == k,
        forall|i: int| 0 <= i < k ==> #[trigger] returned_counts(p, k)[i] == p.current() + i + 1,
    decreases k,
{
    if k > 0 {
        lemma_runs(p, (k - 1) as nat);
    }
}

/// However many workers share a fresh counter for `total` requests, the lock
/// around it puts their increments in one order. Taken in that order, `total`
/// increments return each completed count from 1 to `total` exactly once, and
/// leave the counter at `total`, complete.
pub proof fn lemma_increments_count_each_request_once(total: usize)
    requires
        total >= 1,
    ensures
        ({
            let start = ProgressBar::fresh(total);
            let seen = returned_counts(start, total as nat);
            &&& seen.no_duplicates()
            &&& seen.to_set() == set_int_range(1, total + 1)
            &&& seen.to_set().len() == total
            &&& after_increments(start, total as nat).wf()
            &&& after_increments(start, total as nat).current() == total
            &&& after_increments(start, total as nat).total() == total
        }),
{
    let start = ProgressBar::fresh(total);
    let seen = returned_counts(start, total as nat);
    lemma_runs(start, total as nat);
    assert forall|v: int| seen.to_set().contains(v) <==> set_int_range(1, total + 1).contains(v) by {
        if 1 <= v <= total {
            assert(seen[v - 1] == v);
        }
    }
    assert(seen.to_set() =~= set_int_range(1, total + 1));
    lemma_int_range(1, total + 1);
}

} // verus!
