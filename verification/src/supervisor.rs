//! The startup sequence of the backend supervisor.
//!
//! On application start the supervisor ensures the companion daemon is
//! running, checks whether the service is already healthy, spawns it if not,
//! and then polls until the service is ready or the attempts are exhausted.
//! Exhaustion is tolerated: the sequence completes either way and the
//! application keeps running, possibly with a degraded backend.
//!
//! The sequence alternates outside work (probing, spawning, sleeping, HTTP
//! checks) with decisions. The decisions live here, in the [`Supervisor`]
//! state machine: the driver asks [`Supervisor::next_action`] what to do,
//! performs that one piece of outside work, and reports what it observed
//! with [`Supervisor::step`], until the machine is complete.

use vstd::prelude::*;

use crate::health::HealthOutcome;
use crate::health::is_healthy;
use crate::poll::PollState;
use crate::poll::lemma_run_append;
use crate::poll::lemma_run_concluded;
use crate::poll::poll_run;
use crate::poll::poll_start;
use crate::poll::poll_step;

verus! {

/// Bound on the number of health checks the readiness poll performs.
pub const MAX_READY_ATTEMPTS: u32 = 30;

/// Seconds the driver sleeps between two readiness checks.
pub const POLL_INTERVAL_SECS: u64 = 1;

/// Seconds the driver waits after launching the companion daemon.
pub const DAEMON_SETTLE_SECS: u64 = 3;

/// Result of probing the OS process table for the companion daemon.
#[derive(Clone, Copy, Debug, PartialEq, Eq, Structural)]
pub enum DaemonProbe {
    /// The probe completed and reports whether the daemon is running.
    Completed(bool),
    /// The probe itself could not be run.
    ProbeFailed,
}

/// The daemon is launched exactly when the probe completed and reported it
/// absent.
pub open spec fn launch_needed(p: DaemonProbe) -> bool {
    p == DaemonProbe::Completed(false)
}

/// Decides whether to launch the companion daemon: yes exactly when the
/// probe completed and reported it absent. A failed probe launches nothing
/// — ensuring the daemon is best effort throughout.
pub fn should_launch_daemon(p: DaemonProbe) -> (r: bool)
    ensures
        r == launch_needed(p),
{
    match p {
        DaemonProbe::Completed(running) => !running,
        DaemonProbe::ProbeFailed => false,
    }
}

/// Where the startup sequence stands: each phase awaits one observation.
#[derive(Clone, Copy, Debug, PartialEq, Eq, Structural)]
pub enum Phase {
    /// Awaiting the result of the daemon probe.
    ProbingDaemon,
    /// Awaiting the daemon launch and its settling delay.
    SettlingDaemon,
    /// Awaiting the initial health check.
    CheckingInitial,
    /// Awaiting the one spawn attempt.
    Spawning,
    /// Awaiting a readiness health check.
    Polling,
    /// Awaiting the sleep between two readiness checks.
    PausingPoll,
    /// The startup sequence is over.
    Complete,
}

/// The one piece of outside work the driver must perform next.
#[derive(Clone, Copy, Debug, PartialEq, Eq, Structural)]
pub enum Action {
    /// Probe the OS process table for the companion daemon.
    ProbeDaemon,
    /// Launch the daemon (best effort) and wait the settling delay.
    LaunchDaemonAndSettle,
    /// Perform one health check against the service endpoint.
    CheckHealth,
    /// Spawn the service and record the result in the process slot.
    SpawnService,
    /// Sleep for the poll interval.
    SleepPollInterval,
    /// Nothing: the startup sequence is complete.
    Finish,
}

/// What the driver observed while performing the requested action.
#[derive(Clone, Copy, Debug, PartialEq, Eq, Structural)]
pub enum Event {
    /// The daemon probe finished.
    DaemonProbed(DaemonProbe),
    /// The daemon launch was attempted and the settling delay has passed.
    DaemonSettled,
    /// One health check finished.
    HealthChecked(HealthOutcome),
    /// The one spawn attempt finished; its handle went to the process slot.
    SpawnAttempted,
    /// The poll-interval sleep has passed.
    Slept,
}

/// The decision core of the startup sequence.
#[derive(Clone, Copy, Debug)]
pub struct Supervisor {
    pub phase: Phase,
    /// Progress of the readiness poll; untouched until polling begins.
    pub poll: PollState,
    /// What the initial health check reported, once it has run.
    pub initial_healthy: Option<bool>,
    /// Whether a spawn of the service has been requested.
    pub spawn_requested: bool,
    /// At completion: whether the service was healthy (already, or within
    /// the polling bound).
    pub ready: Option<bool>,
}

impl Supervisor {
    /// Well-formedness, preserved by every step: the spawn is requested if
    /// and only if the initial check reported unhealthy, the poll only runs
    /// after a spawn request, and a completed sequence records how it ended.
    pub open spec fn wf(self) -> bool {
        &&& self.poll.wf()
        &&& (self.spawn_requested <==> self.initial_healthy == Some(false))
        &&& match self.phase {
                Phase::ProbingDaemon => self.before_initial_check(),
                Phase::SettlingDaemon => self.before_initial_check(),
                Phase::CheckingInitial => self.before_initial_check(),
                Phase::Spawning => {
                    &&& self.initial_healthy == Some(false)
                    &&& self.poll == poll_start(self.poll.max_attempts)
                    &&& self.ready is None
                },
                Phase::Polling => {
                    &&& self.initial_healthy == Some(false)
                    &&& self.poll.result is None
                    &&& self.ready is None
                },
                Phase::PausingPoll => {
                    &&& self.initial_healthy == Some(false)
                    &&& self.poll.result is None
                    &&& 1 <= self.poll.checks
                    &&& self.ready is None
                },
                Phase::Complete => {
                    &&& self.initial_healthy is Some
                    &&& self.ready is Some
                    &&& (self.initial_healthy == Some(true) ==> self.ready == Some(true)
                        && self.poll.checks == 0)
                    &&& (self.initial_healthy == Some(false) ==> self.poll.result is Some
                        && self.ready == Some(self.poll.result == Some(true)))
                },
            }
    }

    /// Nothing has been checked, spawned or polled yet.
    pub open spec fn before_initial_check(self) -> bool {
        &&& self.initial_healthy is None
        &&& self.spawn_requested == false
        &&& self.poll == poll_start(self.poll.max_attempts)
        &&& self.ready is None
    }

    /// The outside work each phase awaits.
    pub open spec fn action_of(self) -> Action {
        match self.phase {
            Phase::ProbingDaemon => Action::ProbeDaemon,
            Phase::SettlingDaemon => Action::LaunchDaemonAndSettle,
            Phase::CheckingInitial => Action::CheckHealth,
            Phase::Spawning => Action::SpawnService,
            Phase::Polling => Action::CheckHealth,
            Phase::PausingPoll => Action::SleepPollInterval,
            Phase::Complete => Action::Finish,
        }
    }

    /// Whether an event reports on the work the current phase awaits.
    pub open spec fn accepts(self, e: Event) -> bool {
        match (self.phase, e) {
            (Phase::ProbingDaemon, Event::DaemonProbed(_)) => true,
            (Phase::SettlingDaemon, Event::DaemonSettled) => true,
            (Phase::CheckingInitial, Event::HealthChecked(_)) => true,
            (Phase::Spawning, Event::SpawnAttempted) => true,
            (Phase::Polling, Event::HealthChecked(_)) => true,
            (Phase::PausingPoll, Event::Slept) => true,
            _ => false,
        }
    }
}

/// One transition of the startup sequence, on the observation the current
/// phase awaits.
pub open spec fn machine_step(s: Supervisor, e: Event) -> Supervisor
    recommends
        s.accepts(e),
{
    match (s.phase, e) {
        (Phase::ProbingDaemon, Event::DaemonProbed(p)) => Supervisor {
            phase: if launch_needed(p) {
                Phase::SettlingDaemon
            } else {
                Phase::CheckingInitial
            },
            ..s
        },
        (Phase::SettlingDaemon, Event::DaemonSettled) => Supervisor {
            phase: Phase::CheckingInitial,
            ..s
        },
        (Phase::CheckingInitial, Event::HealthChecked(o)) => if is_healthy(o) {
            Supervisor { phase: Phase::Complete, initial_healthy: Some(true), ready: Some(true), ..s }
        } else {
            Supervisor {
                phase: Phase::Spawning,
                initial_healthy: Some(false),
                spawn_requested: true,
                ..s
            }
        },
        (Phase::Spawning, Event::SpawnAttempted) => Supervisor { phase: Phase::Polling, ..s },
        (Phase::Polling, Event::HealthChecked(o)) => {
            let p = poll_step(s.poll, o);
            match p.result {
                Some(outcome) => Supervisor {
                    phase: Phase::Complete,
                    poll: p,
                    ready: Some(outcome),
                    ..s
                },
                None => Supervisor { phase: Phase::PausingPoll, poll: p, ..s },
            }
        },
        (Phase::PausingPoll, Event::Slept) => Supervisor { phase: Phase::Polling, ..s },
        _ => s,
    }
}

impl Supervisor {
    /// A supervisor about to run the startup sequence, with the given bound
    /// on readiness checks.
    pub fn new(max_attempts: u32) -> (s: Self)
        requires
            1 <= max_attempts,
        ensures
            s.wf(),
            s.phase == Phase::ProbingDaemon,
            s.poll == poll_start(max_attempts),
            s.initial_healthy is None,
            !s.spawn_requested,
            s.ready is None,
    {
        Supervisor {
            phase: Phase::ProbingDaemon,
            poll: PollState::new(max_attempts),
            initial_healthy: None,
            spawn_requested: false,
            ready: None,
        }
    }

    /// The one piece of outside work the driver must perform next.
    pub fn next_action(&self) -> (a: Action)
        ensures
            a == self.action_of(),
    {
        match self.phase {
            Phase::ProbingDaemon => Action::ProbeDaemon,
            Phase::SettlingDaemon => Action::LaunchDaemonAndSettle,
            Phase::CheckingInitial => Action::CheckHealth,
            Phase::Spawning => Action::SpawnService,
            Phase::Polling => Action::CheckHealth,
            Phase::PausingPoll => Action::SleepPollInterval,
            Phase::Complete => Action::Finish,
        }
    }

    /// Whether the startup sequence is over.
    pub fn done(&self) -> (r: bool)
        ensures
            r == (self.phase == Phase::Complete),
    {
        matches!(self.phase, Phase::Complete)
    }

    /// At completion: whether the service ended up healthy. `Some(false)` is
    /// the tolerated degraded outcome that the driver merely logs.
    pub fn became_ready(&self) -> (r: Option<bool>)
        ensures
            r == self.ready,
    {
        self.ready
    }

    /// Whether a spawn of the service has been requested.
    pub fn service_start_requested(&self) -> (r: bool)
        ensures
            r == self.spawn_requested,
    {
        self.spawn_requested
    }

    /// Feeds back the observation the current phase awaits and advances the
    /// sequence by one transition.
    pub fn step(&mut self, e: Event)
        requires
            old(self).wf(),
            old(self).accepts(e),
        ensures
            *final(self) == machine_step(*old(self), e),
            final(self).wf(),
    {
        match (self.phase, e) {
            (Phase::ProbingDaemon, Event::DaemonProbed(p)) => {
                if should_launch_daemon(p) {
                    self.phase = Phase::SettlingDaemon;
                } else {
                    self.phase = Phase::CheckingInitial;
                }
            },
            (Phase::SettlingDaemon, Event::DaemonSettled) => {
                self.phase = Phase::CheckingInitial;
            },
            (Phase::CheckingInitial, Event::HealthChecked(o)) => {
                if crate::health::outcome_is_healthy(o) {
                    self.phase = Phase::Complete;
                    self.initial_healthy = Some(true);
                    self.ready = Some(true);
                } else {
                    self.phase = Phase::Spawning;
                    self.initial_healthy = Some(false);
                    self.spawn_requested = true;
                }
            },
            (Phase::Spawning, Event::SpawnAttempted) => {
                self.phase = Phase::Polling;
            },
            (Phase::Polling, Event::HealthChecked(o)) => {
                self.poll.record_check(o);
                match self.poll.conclusion() {
                    Some(outcome) => {
                        self.phase = Phase::Complete;
                        self.ready = Some(outcome);
                    },
                    None => {
                        self.phase = Phase::PausingPoll;
                    },
                }
            },
            (Phase::PausingPoll, Event::Slept) => {
                self.phase = Phase::Polling;
            },
            _ => {
            },
        }
    }
}

/// The whole startup sequence applied to recorded observations: the daemon
/// probe's result and the outcomes the health endpoint would report, first
/// for the initial check, then for up to `max_attempts` readiness checks.
/// The sequence always completes; the service is spawned exactly when the
/// initial check reported unhealthy, and the readiness poll then concludes
/// as the poll model says. The live driver instead performs one action at a
/// time, via [`Supervisor::next_action`] and [`Supervisor::step`].
pub fn run_startup(probe: DaemonProbe, outcomes: &Vec<HealthOutcome>, max_attempts: u32) -> (s:
    Supervisor)
    requires
        1 <= max_attempts,
        outcomes@.len() >= 1 + max_attempts,
    ensures
        s.wf(),
        s.phase == Phase::Complete,
        s.initial_healthy == Some(is_healthy(outcomes@[0])),
        s.spawn_requested == !is_healthy(outcomes@[0]),
        !s.spawn_requested ==> s.ready == Some(true) && s.poll.checks == 0,
        s.spawn_requested ==> s.poll == poll_run(
            poll_start(max_attempts),
            outcomes@.subrange(1, 1 + max_attempts as int),
        ) && s.ready == Some(s.poll.result == Some(true)),
{
    let ghost q = outcomes@.subrange(1, 1 + max_attempts as int);
    let mut sup = Supervisor::new(max_attempts);
    sup.step(Event::DaemonProbed(probe));
    if should_launch_daemon(probe) {
        sup.step(Event::DaemonSettled);
    }
    assert(sup.phase == Phase::CheckingInitial);
    let first = outcomes[0];
    sup.step(Event::HealthChecked(first));
    if !sup.service_start_requested() {
        return sup;
    }
    assert(sup.phase == Phase::Spawning);
    sup.step(Event::SpawnAttempted);
    assert(sup.phase == Phase::Polling);
    proof {
        assert(q.take(0) =~= Seq::<HealthOutcome>::empty());
    }
    let mut c: usize = 0;
    while !sup.done()
        invariant
            sup.wf(),
            sup.poll.max_attempts == max_attempts,
            outcomes@.len() >= 1 + max_attempts,
            q == outcomes@.subrange(1, 1 + max_attempts as int),
            sup.phase == Phase::Polling || sup.phase == Phase::Complete,
            sup.initial_healthy == Some(false),
            sup.spawn_requested,
            c == sup.poll.checks,
            sup.poll == poll_run(poll_start(max_attempts), q.take(c as int)),
        decreases max_attempts - c,
    {
        assert(sup.phase == Phase::Polling);
        assert(c < max_attempts);
        let ghost prev = sup.poll;
        let o = outcomes[1 + c];
        assert(o == q[c as int]);
        sup.step(Event::HealthChecked(o));
        proof {
            let done = q.take(c as int);
            let one = seq![q[c as int]];
            assert(q.take(c as int + 1) =~= done + one);
            lemma_run_append(poll_start(max_attempts), done, one);
            assert(one.drop_first() =~= Seq::<HealthOutcome>::empty());
            assert(poll_run(prev, one) == poll_run(
                poll_step(prev, one[0]),
                Seq::<HealthOutcome>::empty(),
            ));
            assert(poll_run(poll_step(prev, one[0]), Seq::<HealthOutcome>::empty()) == poll_step(
                prev,
                one[0],
            ));
        }
        c = c + 1;
        if !sup.done() {
            assert(sup.phase == Phase::PausingPoll);
            sup.step(Event::Slept);
        }
    }
    proof {
        assert(q.take(c as int) + q.skip(c as int) =~= q);
        lemma_run_append(poll_start(max_attempts), q.take(c as int), q.skip(c as int));
        assert(sup.poll.result is Some);
        lemma_run_concluded(sup.poll, q.skip(c as int));
    }
    sup
}

/// The supervisor starts the service if and only if the initial health
/// check reported unhealthy. This holds in every reachable state once the
/// initial check has run: [`Supervisor::new`] establishes well-formedness
/// and [`Supervisor::step`] preserves it.
pub proof fn lemma_spawn_iff_initial_unhealthy(s: Supervisor)
    requires
        s.wf(),
        s.initial_healthy is Some,
    ensures
        s.spawn_requested <==> s.initial_healthy == Some(false),
{
}

/// How a completed startup sequence ended: it always records an outcome;
/// when it reports unready, the service was spawned and every poll attempt
/// was spent; when it reports ready, either the initial check was already
/// healthy and no poll check ran, or the poll succeeded.
pub proof fn lemma_complete_characterized(s: Supervisor)
    requires
        s.wf(),
        s.phase == Phase::Complete,
    ensures
        s.ready is Some,
        s.ready == Some(false) ==> s.spawn_requested && s.poll.checks == s.poll.max_attempts,
        s.ready == Some(true) && s.spawn_requested ==> s.poll.result == Some(true),
        s.ready == Some(true) && !s.spawn_requested ==> s.poll.checks == 0,
{
    assert(s.initial_healthy == Some(true) || s.initial_healthy == Some(false));
    if s.initial_healthy == Some(false) {
        assert(s.poll.result == Some(true) || s.poll.result == Some(false));
        if s.poll.result == Some(false) {
            assert(s.ready == Some(false));
            assert(s.poll.checks == s.poll.max_attempts);
        }
    }
}

} // verus!
