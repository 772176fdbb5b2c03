use backend_supervisor::health::HealthOutcome;
use backend_supervisor::poll::PollState;
use backend_supervisor::poll::wait_for_backend;

fn outcomes_healthy_after(failed_checks: usize, len: usize) -> Vec<HealthOutcome> {
    let mut v = Vec::new();
    for i in 0..len {
        if i < failed_checks {
            v.push(HealthOutcome::Unreachable);
        } else {
            v.push(HealthOutcome::Response(200));
        }
    }
    v
}

fn outcomes_never_healthy(len: usize) -> Vec<HealthOutcome> {
    vec![HealthOutcome::Response(503); len]
}

/// Drives the poll state one check at a time, as the live loop does, and
/// returns (success, checks performed).
fn drive(outcomes: &[HealthOutcome], max_attempts: u32) -> (bool, u32) {
    let mut st = PollState::new(max_attempts);
    let mut i: usize = 0;
    while st.pending() {
        st.record_check(outcomes[i]);
        i += 1;
    }
    assert_eq!(i as u32, st.checks_performed());
    (st.conclusion() == Some(true), st.checks_performed())
}

#[test]
fn immediate_success_takes_one_check() {
    let outcomes = outcomes_healthy_after(0, 30);
    assert_eq!(drive(&outcomes, 30), (true, 1));
    assert_eq!(wait_for_backend(&outcomes, 30), (true, 1));
}

#[test]
fn success_after_three_failures_takes_four_checks() {
    let outcomes = outcomes_healthy_after(3, 30);
    assert_eq!(drive(&outcomes, 30), (true, 4));
    assert_eq!(wait_for_backend(&outcomes, 30), (true, 4));
}

#[test]
fn success_on_last_attempt_takes_all_checks() {
    let outcomes = outcomes_healthy_after(29, 30);
    assert_eq!(drive(&outcomes, 30), (true, 30));
    assert_eq!(wait_for_backend(&outcomes, 30), (true, 30));
}

#[test]
fn never_healthy_fails_after_exactly_thirty_checks() {
    let outcomes = outcomes_never_healthy(30);
    assert_eq!(drive(&outcomes, 30), (false, 30));
    assert_eq!(wait_for_backend(&outcomes, 30), (false, 30));
}

#[test]
fn success_one_check_too_late_is_missed() {
    // Healthy only on what would be the 31st check: the poll has already
    // given up.
    let outcomes = outcomes_healthy_after(30, 31);
    assert_eq!(drive(&outcomes, 30), (false, 30));
    assert_eq!(wait_for_backend(&outcomes, 30), (false, 30));
}

#[test]
fn single_attempt_bound() {
    let healthy = outcomes_healthy_after(0, 1);
    let unhealthy = outcomes_never_healthy(1);
    assert_eq!(wait_for_backend(&healthy, 1), (true, 1));
    assert_eq!(wait_for_backend(&unhealthy, 1), (false, 1));
}

#[test]
fn poll_state_stops_reporting_pending_after_success() {
    let mut st = PollState::new(30);
    assert!(st.pending());
    assert_eq!(st.conclusion(), None);
    st.record_check(HealthOutcome::Unreachable);
    assert!(st.pending());
    st.record_check(HealthOutcome::Response(200));
    assert!(!st.pending());
    assert_eq!(st.conclusion(), Some(true));
    assert_eq!(st.checks_performed(), 2);
}
