use process_execution::digest::Digest;
use process_execution::dispatcher::BoundedCommandRunner;
use process_execution::process_result::FallibleExecuteProcessResult;

fn fixed_result() -> FallibleExecuteProcessResult {
    FallibleExecuteProcessResult {
        stdout: b"ran".to_vec(),
        stderr: Vec::new(),
        exit_code: 0,
        output_directory: Digest::empty(),
        execution_attempts: Vec::new(),
    }
}

#[test]
fn admission_bound_holds_under_overload() {
    // bound 2, five concurrent submissions: exactly two are admitted at
    // once, the rest queue, and all five run once permits free up.
    let mut pool = BoundedCommandRunner::new(2);
    let mut admitted: Vec<u64> = Vec::new();
    let mut queued: Vec<u64> = Vec::new();
    for ticket in 1u64..=5 {
        if pool.submit(ticket) {
            admitted.push(ticket);
        } else {
            queued.push(ticket);
        }
    }
    assert_eq!(admitted, vec![1, 2]);
    assert_eq!(queued, vec![3, 4, 5]);

    // each finished execution hands its permit to the next waiter
    let mut ran_later: Vec<u64> = Vec::new();
    for _ in 0..3 {
        let next = pool.settle();
        ran_later.push(next.expect("a waiter should be admitted"));
    }
    assert_eq!(ran_later, vec![3, 4, 5]);

    // the last two in-flight executions end with nobody waiting
    assert_eq!(pool.settle(), None);
    assert_eq!(pool.settle(), None);

    // the pool is back to full capacity: two immediate admissions again
    assert!(pool.submit(6));
    assert!(pool.submit(7));
    assert!(!pool.submit(8));
}

#[test]
fn cancellation_does_not_leak_the_permit() {
    let mut pool = BoundedCommandRunner::new(1);
    assert!(pool.submit(1));
    assert!(!pool.submit(2));

    // the outer caller of ticket 1 cancels; when the inner execution
    // ends, its permit is released all the same and the waiter runs
    let next = pool.settle();
    assert_eq!(next, Some(2));

    // once that one finishes too, the pool is as full as at construction
    assert_eq!(pool.settle(), None);
    assert!(pool.submit(3));
}

#[test]
fn pass_through_returns_the_inner_outcome_unchanged() {
    let mut pool = BoundedCommandRunner::new(1);
    assert!(pool.submit(1));
    let (outcome, next) = pool.complete(Ok(fixed_result()));
    assert_eq!(next, None);
    assert!(outcome == Ok(fixed_result()));

    assert!(pool.submit(2));
    let (outcome, next) = pool.complete(Err("sandbox setup failure".to_string()));
    assert_eq!(next, None);
    assert!(outcome == Err("sandbox setup failure".to_string()));
}

#[test]
fn waiters_are_served_longest_waiting_first() {
    let mut pool = BoundedCommandRunner::new(1);
    assert!(pool.submit(1));
    assert!(!pool.submit(2));
    assert!(!pool.submit(3));

    // a steady stream of new arrivals never delays earlier waiters
    assert_eq!(pool.settle(), Some(2));
    assert!(!pool.submit(4));
    assert_eq!(pool.settle(), Some(3));
    assert_eq!(pool.settle(), Some(4));
    assert_eq!(pool.settle(), None);
}

#[test]
fn abandoned_waiter_leaves_the_queue_without_moving_permits() {
    let mut pool = BoundedCommandRunner::new(1);
    assert!(pool.submit(1));
    assert!(!pool.submit(2));
    assert!(!pool.submit(3));

    // ticket 2 gives up before being admitted; it held no permit
    pool.abandon(2);

    assert_eq!(pool.settle(), Some(3));
    assert_eq!(pool.settle(), None);
    assert!(pool.submit(4));
}
