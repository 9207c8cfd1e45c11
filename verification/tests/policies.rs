use ratelim::logic::{Logic, QuotaPer, Timeout};

#[test]
fn timeout_policy_cooldown_cycle() {
    let mut t = Timeout::new(500);
    assert!(t.is_ready());
    let d = t.add_for(&());
    assert_eq!(d, 500);
    assert!(!t.is_ready());
    t.free(&());
    assert!(t.is_ready());
}

#[test]
fn timeout_policy_keeps_configured_cooldown() {
    let mut t = Timeout::new(7);
    let _ = t.add_for(&());
    t.free(&());
    let d = t.add_for(&());
    assert_eq!(d, 7);
}

#[test]
fn quota_policy_counts_weights() {
    let mut q = QuotaPer::new(5, 500);
    assert!(q.is_ready());
    let d = q.add_for(&2);
    assert_eq!(d, 500);
    assert_eq!(q.state, 2);
    assert!(q.is_ready());
    let _ = q.add_for(&3);
    assert_eq!(q.state, 5);
    assert!(!q.is_ready());
    q.free(&3);
    assert_eq!(q.state, 2);
    assert!(q.is_ready());
    q.free(&2);
    assert_eq!(q.state, 0);
}

#[test]
fn quota_policy_zero_quota_never_ready() {
    let q = QuotaPer::new(0, 500);
    assert!(!q.is_ready());
}

#[test]
fn quota_policy_free_saturates_at_zero() {
    let mut q = QuotaPer::new(5, 500);
    let _ = q.add_for(&1);
    q.free(&3);
    assert_eq!(q.state, 0);
}

#[test]
fn quota_policy_add_saturates_at_max() {
    let mut q = QuotaPer::new(u64::MAX, 500);
    let _ = q.add_for(&(u64::MAX - 1));
    assert!(q.is_ready());
    let _ = q.add_for(&5);
    assert_eq!(q.state, u64::MAX);
    assert!(!q.is_ready());
}
