use backend_supervisor::health::HealthOutcome;
use backend_supervisor::supervisor::Action;
use backend_supervisor::supervisor::DaemonProbe;
use backend_supervisor::supervisor::Event;
use backend_supervisor::supervisor::MAX_READY_ATTEMPTS;
use backend_supervisor::supervisor::Supervisor;
use backend_supervisor::supervisor::run_startup;
use backend_supervisor::supervisor::should_launch_daemon;

const UP: HealthOutcome = HealthOutcome::Response(200);
const DOWN: HealthOutcome = HealthOutcome::Unreachable;

fn outcomes(first: HealthOutcome, rest: HealthOutcome, len: usize) -> Vec<HealthOutcome> {
    let mut v = vec![first];
    while v.len() < len {
        v.push(rest);
    }
    v
}

#[test]
fn daemon_launched_only_when_probe_reports_absent() {
    assert!(should_launch_daemon(DaemonProbe::Completed(false)));
    assert!(!should_launch_daemon(DaemonProbe::Completed(true)));
    assert!(!should_launch_daemon(DaemonProbe::ProbeFailed));
}

#[test]
fn already_healthy_service_is_not_started() {
    let mut sup = Supervisor::new(MAX_READY_ATTEMPTS);
    assert_eq!(sup.next_action(), Action::ProbeDaemon);
    sup.step(Event::DaemonProbed(DaemonProbe::Completed(true)));
    assert_eq!(sup.next_action(), Action::CheckHealth);
    sup.step(Event::HealthChecked(UP));
    assert!(sup.done());
    assert!(!sup.service_start_requested());
    assert_eq!(sup.became_ready(), Some(true));
}

#[test]
fn unhealthy_initial_check_requests_exactly_one_spawn() {
    let mut sup = Supervisor::new(MAX_READY_ATTEMPTS);
    sup.step(Event::DaemonProbed(DaemonProbe::Completed(true)));
    sup.step(Event::HealthChecked(DOWN));
    assert!(sup.service_start_requested());
    assert_eq!(sup.next_action(), Action::SpawnService);
    sup.step(Event::SpawnAttempted);
    // From here on, only health checks and sleeps are requested.
    assert_eq!(sup.next_action(), Action::CheckHealth);
}

#[test]
fn absent_daemon_is_launched_before_the_initial_check() {
    let mut sup = Supervisor::new(MAX_READY_ATTEMPTS);
    sup.step(Event::DaemonProbed(DaemonProbe::Completed(false)));
    assert_eq!(sup.next_action(), Action::LaunchDaemonAndSettle);
    sup.step(Event::DaemonSettled);
    assert_eq!(sup.next_action(), Action::CheckHealth);
}

#[test]
fn failed_daemon_probe_is_ignored() {
    let mut sup = Supervisor::new(MAX_READY_ATTEMPTS);
    sup.step(Event::DaemonProbed(DaemonProbe::ProbeFailed));
    assert_eq!(sup.next_action(), Action::CheckHealth);
}

#[test]
fn poll_alternates_checks_and_sleeps_until_success() {
    let mut sup = Supervisor::new(MAX_READY_ATTEMPTS);
    sup.step(Event::DaemonProbed(DaemonProbe::Completed(true)));
    sup.step(Event::HealthChecked(DOWN));
    sup.step(Event::SpawnAttempted);
    // Two failed readiness checks, each followed by a sleep, then success.
    for _ in 0..2 {
        assert_eq!(sup.next_action(), Action::CheckHealth);
        sup.step(Event::HealthChecked(DOWN));
        assert_eq!(sup.next_action(), Action::SleepPollInterval);
        sup.step(Event::Slept);
    }
    assert_eq!(sup.next_action(), Action::CheckHealth);
    sup.step(Event::HealthChecked(UP));
    assert!(sup.done());
    assert_eq!(sup.next_action(), Action::Finish);
    assert_eq!(sup.became_ready(), Some(true));
    assert_eq!(sup.poll.checks, 3);
}

#[test]
fn exhausted_poll_completes_in_degraded_state() {
    let mut sup = Supervisor::new(MAX_READY_ATTEMPTS);
    sup.step(Event::DaemonProbed(DaemonProbe::Completed(true)));
    sup.step(Event::HealthChecked(DOWN));
    sup.step(Event::SpawnAttempted);
    let mut checks = 0u32;
    while !sup.done() {
        assert_eq!(sup.next_action(), Action::CheckHealth);
        sup.step(Event::HealthChecked(DOWN));
        checks += 1;
        if !sup.done() {
            assert_eq!(sup.next_action(), Action::SleepPollInterval);
            sup.step(Event::Slept);
        }
        assert!(checks <= MAX_READY_ATTEMPTS);
    }
    assert_eq!(checks, MAX_READY_ATTEMPTS);
    assert_eq!(sup.poll.checks, MAX_READY_ATTEMPTS);
    assert_eq!(sup.became_ready(), Some(false));
}

#[test]
fn run_startup_skips_spawn_when_already_healthy() {
    let v = outcomes(UP, DOWN, 31);
    let sup = run_startup(DaemonProbe::Completed(true), &v, MAX_READY_ATTEMPTS);
    assert!(!sup.service_start_requested());
    assert_eq!(sup.became_ready(), Some(true));
    assert_eq!(sup.poll.checks, 0);
}

#[test]
fn run_startup_spawns_and_waits_for_late_health() {
    // Initial check unhealthy, then five more failed checks before success:
    // the poll spends exactly six checks.
    let mut v = vec![DOWN; 6];
    while v.len() < 31 {
        v.push(UP);
    }
    let sup = run_startup(DaemonProbe::Completed(true), &v, MAX_READY_ATTEMPTS);
    assert!(sup.service_start_requested());
    assert_eq!(sup.became_ready(), Some(true));
    assert_eq!(sup.poll.checks, 6);
}

#[test]
fn run_startup_completes_even_when_never_healthy() {
    let v = vec![DOWN; 31];
    let sup = run_startup(DaemonProbe::Completed(false), &v, MAX_READY_ATTEMPTS);
    assert!(sup.service_start_requested());
    assert_eq!(sup.became_ready(), Some(false));
    assert_eq!(sup.poll.checks, MAX_READY_ATTEMPTS);
}
