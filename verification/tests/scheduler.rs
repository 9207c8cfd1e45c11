use ratelim::sched::Scheduler;

#[test]
fn pops_come_in_non_decreasing_due_order() {
    let mut s: Scheduler<u64> = Scheduler::new();
    for &due in &[500u64, 10, 300, 10, 700, 1, 300] {
        s.push(due, due);
    }
    assert_eq!(s.len(), 7);
    let mut last: u64 = 0;
    let mut seen: usize = 0;
    while s.len() > 0 {
        let (due, state) = s.pop_earliest();
        assert!(due >= last);
        assert_eq!(due, state);
        last = due;
        seen += 1;
    }
    assert_eq!(seen, 7);
    assert_eq!(last, 700);
}

#[test]
fn peek_shows_the_earliest_due() {
    let mut s: Scheduler<&str> = Scheduler::new();
    assert_eq!(s.peek_due(), None);
    s.push(40, "later");
    assert_eq!(s.peek_due(), Some(40));
    s.push(20, "sooner");
    assert_eq!(s.peek_due(), Some(20));
    s.push(30, "between");
    assert_eq!(s.peek_due(), Some(20));
    let (due, state) = s.pop_earliest();
    assert_eq!((due, state), (20, "sooner"));
    assert_eq!(s.peek_due(), Some(30));
}

#[test]
fn states_ride_along_with_their_due() {
    let mut s: Scheduler<String> = Scheduler::new();
    s.push(2, String::from("b"));
    s.push(3, String::from("c"));
    s.push(1, String::from("a"));
    assert_eq!(s.pop_earliest(), (1, String::from("a")));
    assert_eq!(s.pop_earliest(), (2, String::from("b")));
    assert_eq!(s.pop_earliest(), (3, String::from("c")));
    assert_eq!(s.len(), 0);
}
