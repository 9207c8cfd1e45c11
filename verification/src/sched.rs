//! The expiry scheduler: a time-ordered queue of pending-release records.
//!
//! A record pairs a due timestamp (nanoseconds) with the caller state moved in
//! at admission time.  The queue keeps its records in ascending due order, so
//! the earliest-due record is always at the front: peeking is constant time,
//! and popping yields records in non-decreasing due order.  Among records with
//! an equal due timestamp the relative order is deliberately unspecified, and
//! the contracts below promise nothing about it.

use vstd::prelude::*;
use vstd::seq_lib::to_multiset_insert;

verus! {

/// The records of `s` are in ascending (non-decreasing) due order.
pub open spec fn dues_sorted<S>(s: Seq<(u64, S)>) -> bool {
    forall|i: int, j: int| 0 <= i <= j < s.len() ==> s[i].0 <= s[j].0
}

/// Time-ordered queue of pending-release records, earliest due first.
pub struct Scheduler<S> {
    records: Vec<(u64, S)>,
}

impl<S> View for Scheduler<S> {
    type V = Seq<(u64, S)>;

    /// The pending records, earliest due first.
    closed spec fn view(&self) -> Seq<(u64, S)> {
        self.records@
    }
}

impl<S> Scheduler<S> {
    /// Ordering invariant: the records sit in ascending due order.
    pub open spec fn wf(&self) -> bool {
        dues_sorted(self@)
    }

    /// An empty scheduler.
    pub fn new() -> (r: Scheduler<S>)
        ensures
            r@ == Seq::<(u64, S)>::empty(),
            r.wf(),
    {
        Scheduler { records: Vec::new() }
    }

    /// How many records are pending.
    pub fn len(&self) -> (n: usize)
        ensures
            n == self@.len(),
    {
        self.records.len()
    }

    /// The earliest due timestamp, if any record is pending.
    pub fn peek_due(&self) -> (r: Option<u64>)
        ensures
            match r {
                Some(d) => self@.len() > 0 && d == self@[0].0,
                None => self@.len() == 0,
            },
    {
        if self.records.len() == 0 {
            None
        } else {
            Some(self.records[0].0)
        }
    }

    /// Insert a record, keeping ascending due order.  The record lands behind
    /// every record already due no later than it, but exactly where among
    /// equal due timestamps is left open.
    pub fn push(&mut self, due: u64, state: S)
        requires
            old(self).wf(),
        ensures
            final(self).wf(),
            final(self)@.len() == old(self)@.len() + 1,
            exists|i: int|
                0 <= i <= old(self)@.len() && final(self)@ == old(self)@.insert(i, (due, state)),
            final(self)@.to_multiset() == old(self)@.to_multiset().insert((due, state)),
    {
        let mut k: usize = 0;
        while k < self.records.len() && self.records[k].0 <= due
            invariant
                k <= self.records.len(),
                forall|j: int| 0 <= j < k ==> self.records@[j].0 <= due,
            decreases self.records.len() - k,
        {
            k = k + 1;
        }
        let ghost pre = self.records@;
        let ghost pos = k as int;
        self.records.insert(k, (due, state));
        proof {
            pre.insert_ensures(pos, (due, state));
            to_multiset_insert(pre, pos, (due, state));
            assert(0 <= pos <= pre.len() && self.records@ == pre.insert(pos, (due, state)));
            assert forall|i: int, j: int|
                0 <= i <= j < self.records@.len() implies self.records@[i].0
                <= self.records@[j].0 by {
                let s = self.records@;
                if j < pos {
                    assert(s[i] == pre[i] && s[j] == pre[j]);
                } else if i > pos {
                    assert(s[i] == pre[i - 1] && s[j] == pre[j - 1]);
                } else if i < pos && j == pos {
                    assert(s[i] == pre[i] && s[i].0 <= due);
                } else if i == pos && j > pos {
                    assert(s[j] == pre[j - 1]);
                    assert(pre[pos] == s[j] || pre[pos].0 <= pre[j - 1].0);
                    assert(due < pre[pos].0 || pos == pre.len());
                } else if i < pos && j > pos {
                    assert(s[i] == pre[i] && s[j] == pre[j - 1]);
                    assert(s[i].0 <= due);
                    assert(due < pre[pos].0 || pos == pre.len());
                    assert(pre[pos].0 <= pre[j - 1].0);
                }
            }
        }
    }

    /// Remove and return the earliest-due record.
    pub fn pop_earliest(&mut self) -> (r: (u64, S))
        requires
            old(self).wf(),
            old(self)@.len() > 0,
        ensures
            final(self).wf(),
            r == old(self)@[0],
            final(self)@ == old(self)@.drop_first(),
    {
        let ghost pre = self.records@;
        let r = self.records.remove(0);
        proof {
            assert(pre.remove(0) =~= pre.drop_first());
        }
        r
    }
}

} // verus!
