//! Tests for the timer subsystem.

use winloop::Timer;
use winloop::TimerQueue;
use winloop::TimerToken;

#[test]
fn drain_returns_expired_prefix_sorted() {
    let mut q = TimerQueue::new();
    q.schedule(10, 300);
    q.schedule(11, 100);
    q.schedule(12, 200);
    q.schedule(13, 400);
    let drained = q.drain_expired(250);
    let ids: Vec<u64> = drained.iter().map(|t| t.id()).collect();
    assert_eq!(ids, vec![11, 12]);
    let deadlines: Vec<u64> = drained.iter().map(|t| t.deadline()).collect();
    assert_eq!(deadlines, vec![100, 200]);
    // The remaining earliest deadline is the minimum among non-expired.
    assert_eq!(q.peek_earliest().unwrap().deadline(), 300);
    assert_eq!(q.len(), 2);
}

#[test]
fn equal_deadlines_keep_schedule_order() {
    let mut q = TimerQueue::new();
    let a = q.schedule(1, 500);
    let b = q.schedule(2, 500);
    let c = q.schedule(3, 500);
    let drained = q.drain_expired(501);
    let tokens: Vec<TimerToken> = drained.iter().map(|t| t.token()).collect();
    assert_eq!(tokens, vec![a, b, c]);
    let ids: Vec<u64> = drained.iter().map(|t| t.id()).collect();
    assert_eq!(ids, vec![1, 2, 3]);
}

#[test]
fn drain_is_strict_on_the_boundary() {
    let mut q = TimerQueue::new();
    q.schedule(1, 100);
    // A deadline equal to `now` has not expired yet.
    assert!(q.drain_expired(100).is_empty());
    assert_eq!(q.len(), 1);
    assert_eq!(q.drain_expired(101).len(), 1);
    assert_eq!(q.len(), 0);
}

#[test]
fn scenario_three_timers_drained_at_six_ms() {
    let t: u64 = 1_000;
    let mut q = TimerQueue::new();
    q.schedule(1, t + 10);
    q.schedule(2, t + 5);
    q.schedule(3, t + 20);
    let drained = q.drain_expired(t + 6);
    assert_eq!(drained.len(), 1);
    assert_eq!(drained[0].id(), 2);
    assert_eq!(drained[0].deadline(), t + 5);
    assert_eq!(q.peek_earliest().unwrap().deadline(), t + 10);
}

#[test]
fn empty_queue_is_a_valid_steady_state() {
    let mut q = TimerQueue::new();
    assert!(q.peek_earliest().is_none());
    assert!(q.drain_expired(u64::MAX).is_empty());
    assert_eq!(q.len(), 0);
}

#[test]
fn tokens_are_distinct_and_identify_timers() {
    let mut q = TimerQueue::new();
    let a = q.schedule(1, 100);
    let b = q.schedule(1, 100);
    assert_ne!(a, b);
    let t = Timer::new(7, 42, a);
    assert_eq!(t.id(), 7);
    assert_eq!(t.deadline(), 42);
    assert_eq!(t.token(), a);
}

#[test]
fn cancel_removes_exactly_the_token() {
    let mut q = TimerQueue::new();
    let a = q.schedule(1, 100);
    let b = q.schedule(2, 50);
    assert!(q.cancel(a));
    assert_eq!(q.len(), 1);
    assert_eq!(q.peek_earliest().unwrap().token(), b);
    // Cancelling an absent token is a no-op.
    assert!(!q.cancel(a));
    assert_eq!(q.len(), 1);
    assert!(q.cancel(b));
    assert!(q.peek_earliest().is_none());
}

#[test]
fn peek_does_not_mutate() {
    let mut q = TimerQueue::new();
    q.schedule(5, 77);
    let first = q.peek_earliest();
    let second = q.peek_earliest();
    assert_eq!(first, second);
    assert_eq!(q.len(), 1);
}
