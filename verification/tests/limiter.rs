use ratelim::logic::{QuotaPer, Timeout};
use ratelim::LogicWrapper;

const MS: u64 = 1_000_000;

#[test]
fn cooldown_window_blocks_until_due() {
    let mut w = LogicWrapper::new(Timeout::new(500 * MS));
    assert!(w.ready(0));
    w.add((), 0);
    assert!(!w.ready(1));
    assert!(!w.ready(250 * MS));
    assert!(!w.ready(500 * MS - 1));
    assert!(w.ready(500 * MS));
    w.add((), 500 * MS);
    assert!(!w.ready(999 * MS));
    assert!(w.ready(1000 * MS));
}

#[test]
fn prune_frees_exactly_the_due_records() {
    let mut w = LogicWrapper::new(QuotaPer::new(10, 100));
    assert!(w.ready(0));
    w.add(3, 0);
    assert!(w.ready(50));
    w.add(4, 50);
    assert_eq!(w.logic.state, 7);
    assert_eq!(w.delayed_frees.len(), 2);
    let _ = w.cleanup(120);
    assert_eq!(w.logic.state, 4);
    assert_eq!(w.delayed_frees.len(), 1);
    let _ = w.cleanup(150);
    assert_eq!(w.logic.state, 0);
    assert_eq!(w.delayed_frees.len(), 0);
}

#[test]
fn sequential_blocking_until_the_window_passes() {
    let mut w = LogicWrapper::new(QuotaPer::new(1, 500 * MS));
    assert!(w.ready(0));
    w.add(1, 0);
    let poll: u64 = MS;
    let mut t: u64 = 0;
    let mut admitted_at: Option<u64> = None;
    while admitted_at.is_none() {
        t += poll;
        if w.ready(t) {
            w.add(1, t);
            admitted_at = Some(t);
        }
    }
    assert_eq!(admitted_at, Some(500 * MS));
}

#[test]
fn throughput_converges_to_quota_per_window() {
    let mut w = LogicWrapper::new(QuotaPer::new(5, 500 * MS));
    let mut admitted: u64 = 0;
    let mut t: u64 = 0;
    while t < 5000 * MS {
        while w.ready(t) {
            w.add(1, t);
            admitted += 1;
        }
        t += MS;
    }
    assert_eq!(admitted, 50);
}

#[test]
fn zero_cooldown_admits_every_waiter() {
    let mut w = LogicWrapper::new(Timeout::new(0));
    let mut admitted: usize = 0;
    let mut t: u64 = 0;
    while admitted < 1000 {
        t += MS;
        if w.ready(t) {
            w.add((), t);
            admitted += 1;
        }
    }
    assert_eq!(admitted, 1000);
    assert_eq!(t, 1000 * MS);
}

#[test]
fn generous_quota_admits_every_waiter_at_once() {
    let mut w = LogicWrapper::new(QuotaPer::new(1000, 500 * MS));
    let mut admitted: usize = 0;
    while admitted < 1000 && w.ready(0) {
        w.add(1, 0);
        admitted += 1;
    }
    assert_eq!(admitted, 1000);
    assert!(!w.ready(0));
}

#[test]
fn capacity_is_never_exceeded_at_grant_time() {
    let mut w = LogicWrapper::new(QuotaPer::new(5, 500 * MS));
    let mut t: u64 = 0;
    while t < 3000 * MS {
        if w.ready(t) {
            assert!(w.logic.state < 5);
            w.add(1, t);
        }
        t += 7 * MS;
    }
}

#[test]
fn due_at_the_largest_timestamp_saturates() {
    let mut w = LogicWrapper::new(Timeout::new(u64::MAX));
    assert!(w.ready(u64::MAX - 10));
    w.add((), u64::MAX - 10);
    assert!(!w.ready(u64::MAX - 1));
    assert!(w.ready(u64::MAX));
}
