//! An in-process admission-control limiter.
//!
//! Concurrent callers pass through a limiter before performing a rate-limited
//! action.  A pluggable policy ([`logic::Logic`]) decides readiness, and a
//! time-ordered scheduler ([`sched::Scheduler`]) undoes each admission's
//! effect once its duration has elapsed.  This crate holds the verified core:
//! the policies, the expiry scheduler, and the prune/check/admit steps the
//! limiter runs under its lock ([`LogicWrapper`]).  Timestamps and durations are
//! plain nanosecond counts supplied by the caller.

pub mod laws;
pub mod logic;
pub mod sched;

use vstd::prelude::*;
use crate::logic::{free_all, lemma_free_all_push, sat_add, Logic};
use crate::sched::Scheduler;

verus! {

/// One prune: `post` is `pre` after popping every record already due at
/// `now`, earliest first, and undoing each through the policy.
///
/// `popped` lists the records that were undone, in the order they were
/// popped.  A prune never frees a record before its due timestamp, never
/// leaves a due record behind, and pops each pending record at most once:
/// the pending records of `pre` are exactly `popped` followed by what is
/// still pending in `post`.
pub open spec fn cleanup_rel<L: Logic<S>, S>(
    pre: LogicWrapper<L, S>,
    now: u64,
    popped: Seq<(u64, S)>,
    post: LogicWrapper<L, S>,
) -> bool {
    &&& pre.delayed_frees@ == popped + post.delayed_frees@
    &&& forall|i: int| 0 <= i < popped.len() ==> popped[i].0 <= now
    &&& forall|i: int| 0 <= i < post.delayed_frees@.len() ==> post.delayed_frees@[i].0 > now
    &&& post.logic == free_all(pre.logic, popped)
}

/// One admission: `post` is `pre` after recording the admission carrying
/// `state` at time `now` and scheduling its undo.  The policy moves to its
/// add state, and one record due at `now` plus the policy-chosen duration
/// (saturating at the largest representable timestamp) joins the pending
/// records; where it lands among equal due timestamps is left open.
pub open spec fn add_rel<L: Logic<S>, S>(
    pre: LogicWrapper<L, S>,
    state: S,
    now: u64,
    post: LogicWrapper<L, S>,
) -> bool {
    let due = sat_add(now, pre.logic.dur_spec(state));
    &&& post.logic == pre.logic.add_spec(state)
    &&& exists|i: int|
        0 <= i <= pre.delayed_frees@.len() && post.delayed_frees@ == pre.delayed_frees@.insert(
            i,
            (due, state),
        )
}

/// The limiter-internal state: one policy instance and the scheduler of pending
/// undo records.  The limiter holds one value of this type behind its lock; each
/// caller runs prune/check ([`LogicWrapper::ready`]) and, once ready, admit
/// ([`LogicWrapper::add`]) without releasing the lock in between.
pub struct LogicWrapper<L: Logic<S>, S> {
    /// The admission policy.
    pub logic: L,
    /// Pending undo records, earliest due first.
    pub delayed_frees: Scheduler<S>,
}

impl<L: Logic<S>, S> LogicWrapper<L, S> {
    /// The scheduler's ordering invariant.
    pub open spec fn wf(&self) -> bool {
        self.delayed_frees.wf()
    }

    /// Wrap a policy with an empty scheduler.
    pub fn new(logic: L) -> (r: LogicWrapper<L, S>)
        ensures
            r.logic == logic,
            r.delayed_frees@ == Seq::<(u64, S)>::empty(),
            r.wf(),
    {
        LogicWrapper { logic, delayed_frees: Scheduler::new() }
    }

    /// Prune every record due at `now`, undoing each through the policy,
    /// earliest first.  Returns the popped records.
    pub fn cleanup(&mut self, now: u64) -> (popped: Ghost<Seq<(u64, S)>>)
        requires
            old(self).wf(),
        ensures
            final(self).wf(),
            cleanup_rel(*old(self), now, popped@, *final(self)),
    {
        let ghost pre = *self;
        let ghost mut done: Seq<(u64, S)> = Seq::empty();
        proof {
            assert(pre.delayed_frees@ =~= done + self.delayed_frees@);
        }
        loop
            invariant
                self.wf(),
                pre.delayed_frees@ == done + self.delayed_frees@,
                forall|i: int| 0 <= i < done.len() ==> done[i].0 <= now,
                self.logic == free_all(pre.logic, done),
            ensures
                self.wf(),
                pre.delayed_frees@ == done + self.delayed_frees@,
                forall|i: int| 0 <= i < done.len() ==> done[i].0 <= now,
                self.logic == free_all(pre.logic, done),
                self.delayed_frees@.len() == 0 || self.delayed_frees@[0].0 > now,
            decreases self.delayed_frees@.len(),
        {
            let stop = match self.delayed_frees.peek_due() {
                Some(d) => now < d,
                None => true,
            };
            if stop {
                break ;
            }
            let (d, state) = self.delayed_frees.pop_earliest();
            self.logic.free(&state);
            proof {
                lemma_free_all_push(pre.logic, done, (d, state));
                let rest = self.delayed_frees@;
                assert(pre.delayed_frees@ =~= done.push((d, state)) + rest);
                done = done.push((d, state));
            }
        }
        proof {
            let rest = self.delayed_frees@;
            if rest.len() > 0 {
                assert forall|i: int| 0 <= i < rest.len() implies rest[i].0 > now by {
                    assert(rest[0].0 <= rest[i].0);
                }
            }
        }
        Ghost(done)
    }

    /// Prune at `now`, then ask the policy whether one more admission can be
    /// accepted.  This is the check half of the limiter's critical section.
    pub fn ready(&mut self, now: u64) -> (r: bool)
        requires
            old(self).wf(),
        ensures
            final(self).wf(),
            exists|popped: Seq<(u64, S)>|
                cleanup_rel(*old(self), now, popped, *final(self)),
            r == final(self).logic.ready_spec(),
    {
        let popped = self.cleanup(now);
        proof {
            assert(cleanup_rel(*old(self), now, popped@, *self));
        }
        self.logic.is_ready()
    }

    /// Record one admission carrying `state` at time `now` and schedule its
    /// undo for `now` plus the policy-chosen duration.  Called only when
    /// [`LogicWrapper::ready`] has just returned true, with the lock still
    /// held.
    pub fn add(&mut self, state: S, now: u64)
        requires
            old(self).wf(),
            old(self).logic.ready_spec(),
        ensures
            final(self).wf(),
            add_rel(*old(self), state, now, *final(self)),
    {
        let d = self.logic.add_for(&state);
        let due = if d <= u64::MAX - now {
            now + d
        } else {
            u64::MAX
        };
        self.delayed_frees.push(due, state);
    }
}

} // verus!
