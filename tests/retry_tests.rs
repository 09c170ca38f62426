use kv_gateway::retry::{ConnectionState, Connector, RetryAction, RetryPolicy};

#[test]
fn standard_policy_values() {
    let p = RetryPolicy::standard();
    assert_eq!(p.max_attempts, 5);
    assert_eq!(p.base_delay_ms, 500);
}

#[test]
fn delays_double_from_the_base() {
    let p = RetryPolicy::standard();
    assert_eq!(p.delay_ms(0), 500);
    assert_eq!(p.delay_ms(1), 1000);
    assert_eq!(p.delay_ms(2), 2000);
    assert_eq!(p.delay_ms(3), 4000);
    assert_eq!(p.delay_ms(4), 8000);
    let q = RetryPolicy::new(3, 7);
    assert_eq!(q.delay_ms(2), 28);
}

#[test]
fn connects_on_sixth_attempt_after_five_waits() {
    let mut c = Connector::new(RetryPolicy::standard());
    assert_eq!(c.current(), ConnectionState::Disconnected);
    assert_eq!(c.begin(), RetryAction::Attempt);
    assert_eq!(c.current(), ConnectionState::Connecting { attempt: 0 });
    let mut delays = Vec::new();
    for _ in 0..5 {
        match c.on_attempt(false) {
            RetryAction::Wait { delay_ms } => delays.push(delay_ms),
            other => panic!("unexpected action {:?}", other),
        }
    }
    assert_eq!(delays, vec![500, 1000, 2000, 4000, 8000]);
    assert_eq!(c.current(), ConnectionState::Connecting { attempt: 5 });
    assert_eq!(c.on_attempt(true), RetryAction::Done);
    assert_eq!(c.current(), ConnectionState::Connected);
}

#[test]
fn gives_up_after_six_refused_attempts() {
    let mut c = Connector::new(RetryPolicy::standard());
    c.begin();
    let mut waits = 0;
    let mut attempts = 0;
    loop {
        attempts += 1;
        match c.on_attempt(false) {
            RetryAction::Wait { .. } => waits += 1,
            RetryAction::GiveUp => break,
            other => panic!("unexpected action {:?}", other),
        }
        assert!(attempts <= 6);
    }
    assert_eq!(waits, 5);
    assert_eq!(attempts, 6);
    assert_eq!(c.current(), ConnectionState::Failed);
    assert_eq!(c.on_attempt(true), RetryAction::GiveUp);
    assert_eq!(c.current(), ConnectionState::Failed);
}

#[test]
fn first_attempt_success_needs_no_wait() {
    let mut c = Connector::new(RetryPolicy::standard());
    c.begin();
    assert_eq!(c.on_attempt(true), RetryAction::Done);
    assert_eq!(c.begin(), RetryAction::Done);
    assert_eq!(c.current(), ConnectionState::Connected);
}

#[test]
fn zero_budget_gives_up_at_once() {
    let mut c = Connector::new(RetryPolicy::new(0, 500));
    c.begin();
    assert_eq!(c.on_attempt(false), RetryAction::GiveUp);
    assert_eq!(c.current(), ConnectionState::Failed);
}

#[test]
fn largest_delay_that_fits() {
    let p = RetryPolicy::new(2, u64::MAX / 2);
    assert_eq!(p.delay_ms(1), (u64::MAX / 2) * 2);
}
