//! The policy contract and the two built-in policies.
//!
//! A policy decides whether one more admission may be accepted right now,
//! records each admission together with how long its effect stays in force,
//! and undoes that effect when told the time has come.  All durations and
//! timestamps are plain nanosecond counts.

use vstd::prelude::*;

verus! {

/// Addition on `u64` that saturates at `u64::MAX` instead of overflowing.
pub open spec fn sat_add(a: u64, b: u64) -> u64 {
    if a + b <= u64::MAX { (a + b) as u64 } else { u64::MAX }
}

/// Subtraction on `u64` that saturates at zero instead of underflowing.
pub open spec fn sat_sub(a: u64, b: u64) -> u64 {
    if b <= a { (a - b) as u64 } else { 0 }
}

/// The capability set every admission policy provides.
///
/// `is_ready` is a pure query; `add_for` records one admission and returns how
/// long (in nanoseconds) its effect remains in force; `free` exactly undoes the
/// bookkeeping of the matching `add_for`.  Each executable method is pinned to
/// a specification-level model of the same step, so code generic over a policy
/// can reason about the exact state it leaves behind.
pub trait Logic<State>: Sized {
    /// Whether one more admission can be accepted right now.
    spec fn ready_spec(&self) -> bool;

    /// The policy state after recording one admission carrying `state`.
    spec fn add_spec(&self, state: State) -> Self;

    /// How long the admission carrying `state` stays in force, in nanoseconds.
    spec fn dur_spec(&self, state: State) -> u64;

    /// The policy state after undoing the admission that carried `state`.
    spec fn free_spec(&self, state: State) -> Self;

    /// Pure readiness query: answers "can one more admission be accepted now."
    fn is_ready(&self) -> (r: bool)
        ensures
            r == self.ready_spec(),
    ;

    /// Record one admission; called only when `is_ready` has just returned
    /// true.  Returns the duration the admission's effect stays in force.
    fn add_for(&mut self, state: &State) -> (d: u64)
        requires
            old(self).ready_spec(),
        ensures
            *final(self) == old(self).add_spec(*state),
            d == old(self).dur_spec(*state),
    ;

    /// Undo the bookkeeping of the matching `add_for` call.
    fn free(&mut self, state: &State)
        ensures
            *final(self) == old(self).free_spec(*state),
    ;
}

/// The policy state after undoing, front first, every admission recorded in
/// `records`.
pub open spec fn free_all<L: Logic<S>, S>(l: L, records: Seq<(u64, S)>) -> L
    decreases records.len(),
{
    if records.len() == 0 {
        l
    } else {
        free_all(l.free_spec(records[0].1), records.drop_first())
    }
}

/// Undoing one more record at the back is the same as undoing it last.
pub proof fn lemma_free_all_push<L: Logic<S>, S>(l: L, records: Seq<(u64, S)>, rec: (u64, S))
    ensures
        free_all(l, records.push(rec)) == free_all(l, records).free_spec(rec.1),
    decreases records.len(),
{
    let s = records.push(rec);
    if records.len() == 0 {
        assert(s[0] == rec);
        assert(s.drop_first() =~= records);
        assert(free_all(l, s) == free_all(l.free_spec(rec.1), records));
        assert(free_all(l.free_spec(rec.1), records) == l.free_spec(rec.1));
        assert(free_all(l, records) == l);
    } else {
        assert(s[0] == records[0]);
        assert(s.drop_first() =~= records.drop_first().push(rec));
        assert(free_all(l, s) == free_all(l.free_spec(records[0].1), records.drop_first().push(rec)));
        lemma_free_all_push(l.free_spec(records[0].1), records.drop_first(), rec);
        assert(free_all(l, records) == free_all(l.free_spec(records[0].1), records.drop_first()));
    }
}

/// Single-slot cooldown policy: at most one admission may be outstanding at
/// any instant, and each admission is followed by a fixed cooldown.
#[derive(Clone, Copy)]
pub struct Timeout {
    /// Whether an admission is currently in cooldown.
    pub is_timed_out: bool,
    /// The fixed cooldown, in nanoseconds.
    pub timeout: u64,
}

impl Timeout {
    /// A cooldown policy that starts ready.
    pub fn new(timeout: u64) -> (r: Timeout)
        ensures
            r == (Timeout { is_timed_out: false, timeout }),
    {
        Timeout { is_timed_out: false, timeout }
    }
}

impl Logic<()> for Timeout {
    open spec fn ready_spec(&self) -> bool {
        !self.is_timed_out
    }

    open spec fn add_spec(&self, state: ()) -> Timeout {
        Timeout { is_timed_out: true, timeout: self.timeout }
    }

    open spec fn dur_spec(&self, state: ()) -> u64 {
        self.timeout
    }

    open spec fn free_spec(&self, state: ()) -> Timeout {
        Timeout { is_timed_out: false, timeout: self.timeout }
    }

    fn is_ready(&self) -> bool {
        !self.is_timed_out
    }

    fn add_for(&mut self, _state: &()) -> u64 {
        self.is_timed_out = true;
        self.timeout
    }

    fn free(&mut self, _state: &()) {
        self.is_timed_out = false;
    }
}

/// Weighted capacity window: the sum of outstanding weights stays below
/// `quota`, and each admitted weight occupies capacity for `timeout`
/// nanoseconds after its own admission.
///
/// The counter is kept defensively: adding saturates at `u64::MAX` and
/// freeing saturates at zero, so a bookkeeping mismatch can never underflow
/// or overflow.  When every `free` matches a prior `add_for` (as the limiter
/// guarantees), saturation is never reached and `free` exactly reverses
/// `add_for`.
#[derive(Clone, Copy)]
pub struct QuotaPer {
    /// Maximum outstanding weighted capacity.
    pub quota: u64,
    /// Sum of the weights currently outstanding.
    pub state: u64,
    /// How long each admitted weight occupies capacity, in nanoseconds.
    pub timeout: u64,
}

impl QuotaPer {
    /// A capacity-window policy with nothing outstanding.
    pub fn new(quota: u64, timeout: u64) -> (r: QuotaPer)
        ensures
            r == (QuotaPer { quota, state: 0, timeout }),
    {
        QuotaPer { quota, state: 0, timeout }
    }
}

impl Logic<u64> for QuotaPer {
    open spec fn ready_spec(&self) -> bool {
        self.state < self.quota
    }

    open spec fn add_spec(&self, state: u64) -> QuotaPer {
        QuotaPer { quota: self.quota, state: sat_add(self.state, state), timeout: self.timeout }
    }

    open spec fn dur_spec(&self, state: u64) -> u64 {
        self.timeout
    }

    open spec fn free_spec(&self, state: u64) -> QuotaPer {
        QuotaPer { quota: self.quota, state: sat_sub(self.state, state), timeout: self.timeout }
    }

    fn is_ready(&self) -> bool {
        self.state < self.quota
    }

    fn add_for(&mut self, state: &u64) -> u64 {
        self.state = if *state <= u64::MAX - self.state {
            self.state + *state
        } else {
            u64::MAX
        };
        self.timeout
    }

    fn free(&mut self, state: &u64) {
        self.state = if *state <= self.state {
            self.state - *state
        } else {
            0
        };
    }
}

} // verus!
