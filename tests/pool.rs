use r5d4::{Acquire, Config, InnerPool, DEFAULT_POOL_SIZE};

fn pool(size: usize) -> InnerPool<String, u32> {
    InnerPool::new(Config::new(size))
}

fn conn(name: &str) -> String {
    name.to_string()
}

#[test]
fn default_config_allows_ten() {
    assert_eq!(Config::default().pool_size(), 10);
    assert_eq!(DEFAULT_POOL_SIZE, 10);
    let p: InnerPool<String, u32> = InnerPool::new(Config::default());
    assert_eq!(p.pool_size(), 10);
}

#[test]
fn new_pool_is_empty() {
    let p = pool(3);
    assert_eq!(p.pool_size(), 3);
    assert_eq!(p.idle_count(), 0);
    assert_eq!(p.lent_count(), 0);
    assert_eq!(p.creating_count(), 0);
    assert_eq!(p.waiting_count(), 0);
    assert_eq!(p.live_conns(), 0);
}

#[test]
fn empty_pool_with_room_asks_for_creation() {
    let mut p = pool(2);
    assert!(matches!(p.poll(1), Acquire::Create));
    assert_eq!(p.creating_count(), 1);
    assert_eq!(p.live_conns(), 1);
    p.connected();
    assert_eq!(p.creating_count(), 0);
    assert_eq!(p.lent_count(), 1);
}

#[test]
fn idle_resource_is_taken_before_creating() {
    let mut p = pool(2);
    assert!(matches!(p.poll(1), Acquire::Create));
    p.connected();
    assert_eq!(p.return_conn(conn("a")), None);
    match p.poll(2) {
        Acquire::Ready(c) => assert_eq!(c, "a"),
        _ => panic!("expected the idle resource"),
    }
    assert_eq!(p.creating_count(), 0);
    assert_eq!(p.lent_count(), 1);
    assert_eq!(p.idle_count(), 0);
}

#[test]
fn idle_queue_is_first_in_first_out() {
    let mut p = pool(2);
    assert!(matches!(p.poll(1), Acquire::Create));
    assert!(matches!(p.poll(2), Acquire::Create));
    p.connected();
    p.connected();
    p.return_conn(conn("a"));
    p.return_conn(conn("b"));
    assert!(matches!(p.poll(3), Acquire::Ready(ref c) if c == "a"));
    assert!(matches!(p.poll(4), Acquire::Ready(ref c) if c == "b"));
}

#[test]
fn capacity_one_second_acquisition_waits_for_the_first() {
    let mut p = pool(1);
    assert!(matches!(p.poll(1), Acquire::Create));
    p.connected();
    assert!(matches!(p.poll(2), Acquire::Blocked));
    assert_eq!(p.waiting_count(), 1);
    assert_eq!(p.creating_count(), 0);
    assert_eq!(p.return_conn(conn("only")), Some(2));
    match p.poll(2) {
        Acquire::Ready(c) => assert_eq!(c, "only"),
        _ => panic!("the woken caller must get the returned resource"),
    }
    assert_eq!(p.live_conns(), 1);
    assert_eq!(p.waiting_count(), 0);
}

#[test]
fn concurrent_slot_reservations_respect_capacity() {
    let mut p = pool(1);
    assert!(matches!(p.poll(1), Acquire::Create));
    // the first creation has not finished: the slot is already taken
    assert!(matches!(p.poll(2), Acquire::Blocked));
    p.connected();
    assert_eq!(p.live_conns(), 1);
    assert!(p.idle_count() + p.lent_count() <= p.pool_size());
}

#[test]
fn three_acquisitions_on_pool_of_two() {
    let mut p = pool(2);
    assert!(matches!(p.poll(1), Acquire::Create));
    assert!(matches!(p.poll(2), Acquire::Create));
    assert!(matches!(p.poll(3), Acquire::Blocked));
    p.connected();
    p.connected();
    assert_eq!(p.lent_count(), 2);
    // a stale re-poll still finds nothing
    assert!(matches!(p.poll(3), Acquire::Blocked));
    assert_eq!(p.waiting_count(), 2);
    assert_eq!(p.return_conn(conn("first")), Some(3));
    assert!(matches!(p.poll(3), Acquire::Ready(ref c) if c == "first"));
    assert_eq!(p.lent_count(), 2);
}

#[test]
fn failed_work_that_keeps_its_resource_returns_it_and_wakes_a_waiter() {
    let mut p = pool(1);
    assert!(matches!(p.poll(1), Acquire::Create));
    p.connected();
    assert!(matches!(p.poll(2), Acquire::Blocked));
    let outcome: Result<((), String), (&str, Option<String>)> = Err(("query failed", Some(conn("c"))));
    let (res, woken) = p.settle(outcome);
    assert_eq!(res, Err("query failed"));
    assert_eq!(woken, Some(2));
    assert_eq!(p.idle_count(), 1);
    assert_eq!(p.lent_count(), 0);
    assert!(matches!(p.poll(2), Acquire::Ready(ref c) if c == "c"));
}

#[test]
fn creation_failing_every_time_leaves_pool_empty() {
    let mut p = pool(2);
    for w in 0..5u32 {
        assert!(matches!(p.poll(w), Acquire::Create));
        assert_eq!(p.connect_failed(), None);
        assert_eq!(p.lent_count(), 0);
        assert_eq!(p.idle_count(), 0);
        assert_eq!(p.creating_count(), 0);
    }
}

#[test]
fn failed_creation_frees_its_slot_for_a_waiter() {
    let mut p = pool(1);
    assert!(matches!(p.poll(1), Acquire::Create));
    assert!(matches!(p.poll(2), Acquire::Blocked));
    assert_eq!(p.connect_failed(), Some(2));
    assert!(matches!(p.poll(2), Acquire::Create));
}

#[test]
fn successful_work_returns_resource_and_value() {
    let mut p = pool(2);
    assert!(matches!(p.poll(1), Acquire::Create));
    p.connected();
    let outcome: Result<(i32, String), (&str, Option<String>)> = Ok((42, conn("c")));
    let (res, woken) = p.settle(outcome);
    assert_eq!(res, Ok(42));
    assert_eq!(woken, None);
    assert_eq!(p.idle_count(), 1);
    assert_eq!(p.lent_count(), 0);
}

#[test]
fn lend_and_return_round_trip_restores_state() {
    let mut p = pool(3);
    assert!(matches!(p.poll(1), Acquire::Create));
    p.connected();
    assert!(matches!(p.poll(2), Acquire::Create));
    p.connected();
    p.return_conn(conn("a"));
    let (idle, lent, waiting) = (p.idle_count(), p.lent_count(), p.waiting_count());
    let c = match p.poll(3) {
        Acquire::Ready(c) => c,
        _ => panic!("expected the idle resource"),
    };
    let outcome: Result<((), String), ((), Option<String>)> = Ok(((), c));
    let (res, woken) = p.settle(outcome);
    assert_eq!(res, Ok(()));
    assert_eq!(woken, None);
    assert_eq!((p.idle_count(), p.lent_count(), p.waiting_count()), (idle, lent, waiting));
    assert!(matches!(p.poll(4), Acquire::Ready(ref c) if c == "a"));
}

#[test]
fn lost_resource_is_gone_for_good() {
    let mut p = pool(2);
    assert!(matches!(p.poll(1), Acquire::Create));
    p.connected();
    assert!(matches!(p.poll(2), Acquire::Create));
    p.connected();
    p.return_conn(conn("a"));
    let outcome: Result<((), String), (&str, Option<String>)> = Err(("broken", None));
    let (res, woken) = p.settle(outcome);
    assert_eq!(res, Err("broken"));
    assert_eq!(woken, None);
    assert_eq!(p.lent_count(), 0);
    assert_eq!(p.idle_count(), 1);
    assert_eq!(p.live_conns(), 1);
}

#[test]
fn lost_resource_leaves_waiters_queued() {
    let mut p = pool(1);
    assert!(matches!(p.poll(1), Acquire::Create));
    p.connected();
    assert!(matches!(p.poll(2), Acquire::Blocked));
    assert_eq!(p.apologize(), None);
    assert_eq!(p.lent_count(), 0);
    assert_eq!(p.idle_count(), 0);
    assert_eq!(p.waiting_count(), 1);
    // the parked caller, once polled again, finds room to create
    assert!(matches!(p.poll(2), Acquire::Create));
}

#[test]
fn failed_work_without_resource_wakes_no_one() {
    let mut p = pool(1);
    assert!(matches!(p.poll(1), Acquire::Create));
    p.connected();
    assert!(matches!(p.poll(2), Acquire::Blocked));
    let outcome: Result<((), String), (&str, Option<String>)> = Err(("gone", None));
    let (res, woken) = p.settle(outcome);
    assert_eq!(res, Err("gone"));
    assert_eq!(woken, None);
    assert_eq!(p.lent_count(), 0);
    assert_eq!(p.idle_count(), 0);
    assert_eq!(p.waiting_count(), 1);
}

#[test]
fn woken_waiter_is_served_front_idle_resource() {
    let mut p = pool(3);
    for w in 1..4u32 {
        assert!(matches!(p.poll(w), Acquire::Create));
        p.connected();
    }
    assert!(matches!(p.poll(9), Acquire::Blocked));
    assert_eq!(p.return_conn(conn("x")), Some(9));
    assert!(matches!(p.poll(9), Acquire::Ready(ref c) if c == "x"));
    assert_eq!(p.waiting_count(), 0);
}

#[test]
fn waiters_are_woken_in_arrival_order() {
    let mut p = pool(1);
    assert!(matches!(p.poll(1), Acquire::Create));
    p.connected();
    assert!(matches!(p.poll(7), Acquire::Blocked));
    assert!(matches!(p.poll(8), Acquire::Blocked));
    assert!(matches!(p.poll(9), Acquire::Blocked));
    assert_eq!(p.return_conn(conn("c")), Some(7));
    assert!(matches!(p.poll(7), Acquire::Ready(_)));
    assert_eq!(p.return_conn(conn("c")), Some(8));
    assert!(matches!(p.poll(8), Acquire::Ready(_)));
    assert_eq!(p.return_conn(conn("c")), Some(9));
    assert_eq!(p.waiting_count(), 0);
}
