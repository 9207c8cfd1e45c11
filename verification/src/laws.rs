//! Laws of the limiter.
//!
//! Each proof function here states, over the specification-level models of
//! the crate's operations, a property that holds of every prune
//! ([`cleanup_rel`]) and every admission ([`add_rel`]): release correctness
//! and ordering for any policy, exclusivity for [`Timeout`], and the
//! capacity bound for [`QuotaPer`].

use vstd::prelude::*;
use vstd::seq_lib::lemma_multiset_commutative;
use crate::logic::{free_all, sat_add, Logic, QuotaPer, Timeout};
use crate::sched::dues_sorted;
use crate::{add_rel, cleanup_rel, LogicWrapper};

verus! {

// ------------------------------------------------------------------
// Release correctness, for any policy.
// ------------------------------------------------------------------

/// Law: a prune never frees a record before its due timestamp.
pub proof fn lemma_no_early_free<L: Logic<S>, S>(
    pre: LogicWrapper<L, S>,
    now: u64,
    popped: Seq<(u64, S)>,
    post: LogicWrapper<L, S>,
    i: int,
)
    requires
        cleanup_rel(pre, now, popped, post),
        0 <= i < popped.len(),
    ensures
        popped[i].0 <= now,
{
}

/// Law: a record scheduled at `t0` to stay in force for `d` is never freed
/// before `t0 + d`: its due timestamp is `t0 + d` (saturating), and a prune
/// only frees records already due.
pub proof fn lemma_release_after_duration(t0: u64, d: u64, t1: u64)
    requires
        sat_add(t0, d) <= t1,
        t0 + d <= u64::MAX,
    ensures
        t0 + d <= t1,
{
}

/// Law: a prune frees each pending record exactly once and loses none: the
/// records pending beforehand are exactly those freed plus those still
/// pending, and the policy undoes precisely the freed ones, front first.
pub proof fn lemma_free_exactly_once<L: Logic<S>, S>(
    pre: LogicWrapper<L, S>,
    now: u64,
    popped: Seq<(u64, S)>,
    post: LogicWrapper<L, S>,
)
    requires
        cleanup_rel(pre, now, popped, post),
    ensures
        pre.delayed_frees@.to_multiset() == popped.to_multiset().add(
            post.delayed_frees@.to_multiset(),
        ),
        post.logic == free_all(pre.logic, popped),
{
    lemma_multiset_commutative(popped, post.delayed_frees@);
}

// ------------------------------------------------------------------
// Scheduler ordering.
// ------------------------------------------------------------------

/// Law: popping repeatedly from the scheduler yields records in
/// non-decreasing due order, however the records were inserted: pops come
/// from the front, and the queue is in ascending due order, so of any two
/// positions the earlier one is due no later.
pub proof fn lemma_pops_nondecreasing<S>(s: Seq<(u64, S)>, i: int, j: int)
    requires
        dues_sorted(s),
        0 <= i <= j < s.len(),
    ensures
        s[i].0 <= s[j].0,
{
}

/// Law: a prune frees records in non-decreasing due order: what it pops is a
/// front segment of a queue kept in ascending due order.
pub proof fn lemma_prune_frees_in_due_order<L: Logic<S>, S>(
    pre: LogicWrapper<L, S>,
    now: u64,
    popped: Seq<(u64, S)>,
    post: LogicWrapper<L, S>,
)
    requires
        pre.wf(),
        cleanup_rel(pre, now, popped, post),
    ensures
        dues_sorted(popped),
{
    assert forall|i: int, j: int| 0 <= i <= j < popped.len() implies popped[i].0
        <= popped[j].0 by {
        assert(pre.delayed_frees@[i] == popped[i]);
        assert(pre.delayed_frees@[j] == popped[j]);
    }
}

// ------------------------------------------------------------------
// Exclusivity of the cooldown policy.
// ------------------------------------------------------------------

/// The limiter invariant for a [`Timeout`] policy: the cooldown flag is set
/// exactly while one undo record is pending, and never more than one is.
pub open spec fn timeout_coherent(w: LogicWrapper<Timeout, ()>) -> bool {
    &&& w.delayed_frees@.len() <= 1
    &&& (w.logic.is_timed_out <==> w.delayed_frees@.len() == 1)
}

/// Undoing records through a [`Timeout`] policy clears the cooldown flag
/// exactly when at least one record was undone, and never touches the
/// configured cooldown.
pub proof fn lemma_timeout_free_all(l: Timeout, popped: Seq<(u64, ())>)
    ensures
        free_all(l, popped).timeout == l.timeout,
        free_all(l, popped).is_timed_out == (popped.len() == 0 && l.is_timed_out),
    decreases popped.len(),
{
    if popped.len() > 0 {
        lemma_timeout_free_all(l.free_spec(popped[0].1), popped.drop_first());
    }
}

/// Law: a fresh limiter around a new cooldown policy satisfies the cooldown
/// invariant, so the laws below hold of it from the first prune on.
pub proof fn lemma_timeout_coherent_init(w: LogicWrapper<Timeout, ()>)
    requires
        w.delayed_frees@.len() == 0,
        !w.logic.is_timed_out,
    ensures
        timeout_coherent(w),
{
}

/// Law: no two admissions are ever concurrently in cooldown, and a prune
/// leaves the cooldown policy ready exactly when no admission was pending or
/// the pending one had come due.
pub proof fn lemma_timeout_exclusivity(
    pre: LogicWrapper<Timeout, ()>,
    now: u64,
    popped: Seq<(u64, ())>,
    post: LogicWrapper<Timeout, ()>,
)
    requires
        timeout_coherent(pre),
        cleanup_rel(pre, now, popped, post),
    ensures
        timeout_coherent(post),
        post.logic.ready_spec() <==> (pre.delayed_frees@.len() == 0 || pre.delayed_frees@[0].0
            <= now),
{
    lemma_timeout_free_all(pre.logic, popped);
    if popped.len() == 0 {
        assert(pre.delayed_frees@ =~= post.delayed_frees@);
        if pre.delayed_frees@.len() == 1 {
            assert(post.delayed_frees@[0].0 > now);
        }
    } else {
        assert(pre.delayed_frees@[0] == popped[0]);
        assert(popped[0].0 <= now);
    }
}

/// Law: an admission through a ready cooldown policy leaves exactly one undo
/// record pending, due one cooldown after the admission instant (saturating),
/// and the policy not ready until that record is freed.
pub proof fn lemma_timeout_admit(
    pre: LogicWrapper<Timeout, ()>,
    now: u64,
    post: LogicWrapper<Timeout, ()>,
)
    requires
        timeout_coherent(pre),
        pre.logic.ready_spec(),
        add_rel(pre, (), now, post),
    ensures
        timeout_coherent(post),
        post.delayed_frees@ == seq![(sat_add(now, pre.logic.timeout), ())],
        !post.logic.ready_spec(),
{
    let due = sat_add(now, pre.logic.dur_spec(()));
    let i = choose|i: int|
        0 <= i <= pre.delayed_frees@.len() && post.delayed_frees@ == pre.delayed_frees@.insert(
            i,
            (due, ()),
        );
    assert(pre.delayed_frees@.len() == 0);
    assert(pre.delayed_frees@.insert(0, (due, ())) =~= seq![(due, ())]);
}

/// Law: after an admission at `t0` through a cooldown policy, a prune at `t`
/// finds the limiter ready exactly when the whole cooldown has elapsed: not
/// ready anywhere in the cooldown window, ready from its end on.
pub proof fn lemma_timeout_window(
    w0: LogicWrapper<Timeout, ()>,
    t0: u64,
    w1: LogicWrapper<Timeout, ()>,
    t: u64,
    popped: Seq<(u64, ())>,
    w2: LogicWrapper<Timeout, ()>,
)
    requires
        timeout_coherent(w0),
        w0.logic.ready_spec(),
        add_rel(w0, (), t0, w1),
        cleanup_rel(w1, t, popped, w2),
        t0 + w0.logic.timeout <= u64::MAX,
    ensures
        timeout_coherent(w2),
        w2.logic.ready_spec() <==> t0 + w0.logic.timeout <= t,
{
    lemma_timeout_admit(w0, t0, w1);
    lemma_timeout_exclusivity(w1, t, popped, w2);
}

/// Law: a prune at a time when every pending cooldown has come due empties
/// the scheduler and leaves the limiter ready, so a waiting caller's next
/// attempt is admitted.  With a zero cooldown this holds at every instant
/// from the admission on.
pub proof fn lemma_timeout_prune_restores_ready(
    pre: LogicWrapper<Timeout, ()>,
    now: u64,
    popped: Seq<(u64, ())>,
    post: LogicWrapper<Timeout, ()>,
)
    requires
        timeout_coherent(pre),
        cleanup_rel(pre, now, popped, post),
        forall|i: int| 0 <= i < pre.delayed_frees@.len() ==> pre.delayed_frees@[i].0 <= now,
    ensures
        post.logic.ready_spec(),
        post.delayed_frees@.len() == 0,
{
    lemma_timeout_exclusivity(pre, now, popped, post);
    if post.delayed_frees@.len() > 0 {
        assert(pre.delayed_frees@[popped.len() as int] == post.delayed_frees@[0]);
    }
}

// ------------------------------------------------------------------
// Capacity bound of the weighted window policy.
// ------------------------------------------------------------------

/// The sum of the weights carried by the records of `s`.
pub open spec fn weight_sum(s: Seq<(u64, u64)>) -> int
    decreases s.len(),
{
    if s.len() == 0 {
        0
    } else {
        s[0].1 + weight_sum(s.drop_first())
    }
}

/// A sum of weights is never negative.
pub proof fn lemma_weight_sum_nonneg(s: Seq<(u64, u64)>)
    ensures
        weight_sum(s) >= 0,
    decreases s.len(),
{
    if s.len() > 0 {
        lemma_weight_sum_nonneg(s.drop_first());
    }
}

/// Weight sums add up across concatenation.
pub proof fn lemma_weight_sum_concat(a: Seq<(u64, u64)>, b: Seq<(u64, u64)>)
    ensures
        weight_sum(a + b) == weight_sum(a) + weight_sum(b),
    decreases a.len(),
{
    if a.len() == 0 {
        assert(a + b =~= b);
    } else {
        assert((a + b)[0] == a[0]);
        assert((a + b).drop_first() =~= a.drop_first() + b);
        lemma_weight_sum_concat(a.drop_first(), b);
    }
}

/// Appending one record raises the weight sum by that record's weight.
pub proof fn lemma_weight_sum_push(s: Seq<(u64, u64)>, x: (u64, u64))
    ensures
        weight_sum(s.push(x)) == weight_sum(s) + x.1,
    decreases s.len(),
{
    if s.len() == 0 {
        assert(s.push(x)[0] == x);
        assert(s.push(x).drop_first() =~= s);
    } else {
        assert(s.push(x)[0] == s[0]);
        assert(s.push(x).drop_first() =~= s.drop_first().push(x));
        lemma_weight_sum_push(s.drop_first(), x);
    }
}

/// Inserting one record anywhere raises the weight sum by that record's
/// weight.
pub proof fn lemma_weight_sum_insert(s: Seq<(u64, u64)>, i: int, x: (u64, u64))
    requires
        0 <= i <= s.len(),
    ensures
        weight_sum(s.insert(i, x)) == weight_sum(s) + x.1,
{
    let front = s.subrange(0, i);
    let back = s.subrange(i, s.len() as int);
    assert(s.insert(i, x) == front.push(x) + back);
    assert(s =~= front + back);
    lemma_weight_sum_concat(front.push(x), back);
    lemma_weight_sum_push(front, x);
    lemma_weight_sum_concat(front, back);
}

/// The limiter invariant for a [`QuotaPer`] policy: the policy's counter equals
/// the sum of the weights whose undo is still pending.  Because of it, the
/// counter is exactly "weights admitted minus weights freed," and freeing
/// never reaches the defensive saturation floor.
pub open spec fn quota_coherent(w: LogicWrapper<QuotaPer, u64>) -> bool {
    w.logic.state as int == weight_sum(w.delayed_frees@)
}

/// Undoing records through a [`QuotaPer`] policy lowers the counter by
/// exactly the freed weights, as long as the counter accounted for them.
pub proof fn lemma_quota_free_all(l: QuotaPer, popped: Seq<(u64, u64)>, rest_sum: int)
    requires
        l.state as int == weight_sum(popped) + rest_sum,
        rest_sum >= 0,
    ensures
        free_all(l, popped).quota == l.quota,
        free_all(l, popped).timeout == l.timeout,
        free_all(l, popped).state as int == rest_sum,
    decreases popped.len(),
{
    if popped.len() > 0 {
        lemma_weight_sum_nonneg(popped.drop_first());
        lemma_quota_free_all(l.free_spec(popped[0].1), popped.drop_first(), rest_sum);
    }
}

/// Law: a fresh limiter around a new window policy satisfies the accounting
/// invariant, so the laws below hold of it from the first prune on.
pub proof fn lemma_quota_coherent_init(w: LogicWrapper<QuotaPer, u64>)
    requires
        w.delayed_frees@.len() == 0,
        w.logic.state == 0,
    ensures
        quota_coherent(w),
{
}

/// Law: a prune keeps the window policy's counter equal to the weight still
/// pending, whether or not the policy comes out ready, and never touches the
/// quota or the window.
pub proof fn lemma_quota_prune_coherent(
    pre: LogicWrapper<QuotaPer, u64>,
    now: u64,
    popped: Seq<(u64, u64)>,
    post: LogicWrapper<QuotaPer, u64>,
)
    requires
        quota_coherent(pre),
        cleanup_rel(pre, now, popped, post),
    ensures
        quota_coherent(post),
        post.logic.quota == pre.logic.quota,
        post.logic.timeout == pre.logic.timeout,
{
    lemma_weight_sum_concat(popped, post.delayed_frees@);
    lemma_weight_sum_nonneg(post.delayed_frees@);
    lemma_quota_free_all(pre.logic, popped, weight_sum(post.delayed_frees@));
}

/// Law: at the instant any admission is granted, the sum of weights admitted
/// minus weights freed -- evaluated just after the prune, right before
/// granting -- is strictly less than the quota.
pub proof fn lemma_quota_capacity(
    pre: LogicWrapper<QuotaPer, u64>,
    now: u64,
    popped: Seq<(u64, u64)>,
    mid: LogicWrapper<QuotaPer, u64>,
)
    requires
        quota_coherent(pre),
        cleanup_rel(pre, now, popped, mid),
        mid.logic.ready_spec(),
    ensures
        quota_coherent(mid),
        weight_sum(mid.delayed_frees@) < mid.logic.quota,
        mid.logic.quota == pre.logic.quota,
{
    lemma_quota_prune_coherent(pre, now, popped, mid);
}

/// Law: an admission of weight `w` through a ready window policy raises both
/// the counter and the pending weight by exactly `w`, keeping them equal.
/// The side condition only keeps the total outstanding weight representable.
pub proof fn lemma_quota_admit(
    pre: LogicWrapper<QuotaPer, u64>,
    w: u64,
    now: u64,
    post: LogicWrapper<QuotaPer, u64>,
)
    requires
        quota_coherent(pre),
        pre.logic.ready_spec(),
        add_rel(pre, w, now, post),
        weight_sum(pre.delayed_frees@) + w <= u64::MAX,
    ensures
        quota_coherent(post),
        weight_sum(post.delayed_frees@) == weight_sum(pre.delayed_frees@) + w,
{
    let due = sat_add(now, pre.logic.dur_spec(w));
    let i = choose|i: int|
        0 <= i <= pre.delayed_frees@.len() && post.delayed_frees@ == pre.delayed_frees@.insert(
            i,
            (due, w),
        );
    lemma_weight_sum_insert(pre.delayed_frees@, i, (due, w));
}

/// Law: while the outstanding weight stays strictly below the quota, the
/// window policy is ready, so a blocked caller's next attempt after enough
/// frees is admitted.
pub proof fn lemma_quota_ready_when_under(w: LogicWrapper<QuotaPer, u64>)
    requires
        quota_coherent(w),
        weight_sum(w.delayed_frees@) < w.logic.quota,
    ensures
        w.logic.ready_spec(),
{
}

} // verus!
