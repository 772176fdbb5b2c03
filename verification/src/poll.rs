//! The bounded readiness poll.
//!
//! After the service has been spawned, the supervisor polls the health
//! endpoint on a fixed interval, up to a bounded number of attempts. The
//! poll stops on the first successful check; once the attempts are exhausted
//! it reports failure, which is tolerated and merely logged by the driver.
//!
//! `PollState` is the decision core of that loop: the driver performs one
//! health check whenever the state is pending, records the outcome with
//! [`PollState::record_check`], and sleeps for the poll interval only while
//! the state remains pending. The spec-level model [`poll_run`] folds the
//! same step over a sequence of outcomes, and the lemmas below pin down the
//! exact number of checks the loop performs.

use vstd::prelude::*;

use crate::health::HealthOutcome;
use crate::health::is_healthy;

verus! {

/// Progress of one bounded readiness poll.
///
/// `checks` counts the health checks recorded so far; `result` is `None`
/// while the poll is still pending, `Some(true)` once a check succeeded, and
/// `Some(false)` once all attempts were spent on failed checks.
#[derive(Clone, Copy, Debug)]
pub struct PollState {
    pub max_attempts: u32,
    pub checks: u32,
    pub result: Option<bool>,
}

impl PollState {
    /// Well-formedness: the check count never exceeds the bound, success
    /// takes at least one check, failure takes exactly all of them, and a
    /// pending poll still has attempts left.
    pub open spec fn wf(self) -> bool {
        &&& 1 <= self.max_attempts
        &&& self.checks <= self.max_attempts
        &&& match self.result {
                Some(true) => 1 <= self.checks,
                Some(false) => self.checks == self.max_attempts,
                None => self.checks < self.max_attempts,
            }
    }
}

/// The state of a poll that has not yet recorded any check.
pub open spec fn poll_start(max_attempts: u32) -> PollState {
    PollState { max_attempts, checks: 0, result: None }
}

/// One step of the poll: recording the outcome of one health check. A poll
/// that has already concluded is left unchanged.
pub open spec fn poll_step(s: PollState, o: HealthOutcome) -> PollState {
    if s.result is Some {
        s
    } else {
        let checks = (s.checks + 1) as u32;
        if is_healthy(o) {
            PollState { max_attempts: s.max_attempts, checks, result: Some(true) }
        } else if checks == s.max_attempts {
            PollState { max_attempts: s.max_attempts, checks, result: Some(false) }
        } else {
            PollState { max_attempts: s.max_attempts, checks, result: None }
        }
    }
}

/// The poll run over a whole sequence of check outcomes, first to last.
pub open spec fn poll_run(s: PollState, outcomes: Seq<HealthOutcome>) -> PollState
    decreases outcomes.len(),
{
    if outcomes.len() == 0 {
        s
    } else {
        poll_run(poll_step(s, outcomes[0]), outcomes.drop_first())
    }
}

/// A concluded poll ignores any further outcomes.
pub proof fn lemma_run_concluded(s: PollState, outcomes: Seq<HealthOutcome>)
    requires
        s.result is Some,
    ensures
        poll_run(s, outcomes) == s,
    decreases outcomes.len(),
{
    if outcomes.len() > 0 {
        lemma_run_concluded(s, outcomes.drop_first());
    }
}

/// Running over a concatenation is running over each part in turn.
pub proof fn lemma_run_append(s: PollState, a: Seq<HealthOutcome>, b: Seq<HealthOutcome>)
    ensures
        poll_run(s, a + b) == poll_run(poll_run(s, a), b),
    decreases a.len(),
{
    if a.len() == 0 {
        assert(a + b =~= b);
    } else {
        assert((a + b)[0] == a[0]);
        assert((a + b).drop_first() =~= a.drop_first() + b);
        lemma_run_append(poll_step(s, a[0]), a.drop_first(), b);
    }
}

/// How a poll that is still pending concludes, given enough recorded
/// outcomes: it spends between one and all of its remaining attempts, every
/// check before the last one it makes fails, and it succeeds exactly when
/// its last check does.
pub proof fn lemma_run_characterized(s: PollState, outcomes: Seq<HealthOutcome>)
    requires
        s.wf(),
        s.result is None,
        outcomes.len() >= s.max_attempts - s.checks,
    ensures
        ({
            let f = poll_run(s, outcomes);
            &&& f.wf()
            &&& f.max_attempts == s.max_attempts
            &&& f.result is Some
            &&& s.checks < f.checks <= s.max_attempts
            &&& forall|i: int| 0 <= i < f.checks - s.checks - 1 ==> !is_healthy(outcomes[i])
            &&& (f.result == Some(true) <==> is_healthy(outcomes[f.checks - s.checks - 1]))
        }),
    decreases outcomes.len(),
{
    let s1 = poll_step(s, outcomes[0]);
    let rest = outcomes.drop_first();
    if s1.result is Some {
        lemma_run_concluded(s1, rest);
    } else {
        lemma_run_characterized(s1, rest);
        let f = poll_run(s, outcomes);
        assert(f == poll_run(s1, rest));
        assert forall|i: int| 0 <= i < f.checks - s.checks - 1 implies !is_healthy(
            outcomes[i],
        ) by {
            if i > 0 {
                assert(outcomes[i] == rest[i - 1]);
            }
        }
        assert(outcomes[f.checks - s.checks - 1] == rest[f.checks - s1.checks - 1]);
    }
}

/// The poll performs at least one and at most `max_attempts` checks, always
/// concludes, stops immediately on the first successful check, and succeeds
/// exactly when its last check does.
pub proof fn lemma_poll_check_bounds(max_attempts: u32, outcomes: Seq<HealthOutcome>)
    requires
        1 <= max_attempts,
        outcomes.len() >= max_attempts,
    ensures
        ({
            let f = poll_run(poll_start(max_attempts), outcomes);
            &&& f.wf()
            &&& f.max_attempts == max_attempts
            &&& f.result is Some
            &&& 1 <= f.checks <= max_attempts
            &&& forall|i: int| 0 <= i < f.checks - 1 ==> !is_healthy(outcomes[i])
            &&& (f.result == Some(true) <==> is_healthy(outcomes[f.checks - 1]))
        }),
{
    lemma_run_characterized(poll_start(max_attempts), outcomes);
}

/// When the endpoint first reports healthy on check index `n` (so after `n`
/// failed checks), the poll succeeds after exactly `n + 1` checks.
pub proof fn lemma_poll_first_success(max_attempts: u32, outcomes: Seq<HealthOutcome>, n: int)
    requires
        1 <= max_attempts,
        outcomes.len() >= max_attempts,
        0 <= n < max_attempts,
        is_healthy(outcomes[n]),
        forall|i: int| 0 <= i < n ==> !is_healthy(outcomes[i]),
    ensures
        poll_run(poll_start(max_attempts), outcomes).result == Some(true),
        poll_run(poll_start(max_attempts), outcomes).checks == n + 1,
{
    lemma_poll_check_bounds(max_attempts, outcomes);
    let f = poll_run(poll_start(max_attempts), outcomes);
    assert(f.wf());
    if f.result != Some(true) {
        assert(f.result == Some(false));
        assert(f.checks == max_attempts);
        assert(!is_healthy(outcomes[f.checks - 1]));
        if n == f.checks - 1 {
            assert(false);
        } else {
            assert(0 <= n < f.checks - 1);
            assert(!is_healthy(outcomes[n]));
            assert(false);
        }
    }
    if f.checks - 1 < n {
        assert(!is_healthy(outcomes[f.checks - 1]));
        assert(false);
    }
    if f.checks - 1 > n {
        assert(!is_healthy(outcomes[n]));
        assert(false);
    }
}

/// When the endpoint never reports healthy, the poll fails after exactly
/// `max_attempts` checks.
pub proof fn lemma_poll_exhaustion(max_attempts: u32, outcomes: Seq<HealthOutcome>)
    requires
        1 <= max_attempts,
        outcomes.len() >= max_attempts,
        forall|i: int| 0 <= i < max_attempts ==> !is_healthy(outcomes[i]),
    ensures
        poll_run(poll_start(max_attempts), outcomes).result == Some(false),
        poll_run(poll_start(max_attempts), outcomes).checks == max_attempts,
{
    lemma_poll_check_bounds(max_attempts, outcomes);
    let f = poll_run(poll_start(max_attempts), outcomes);
    assert(f.wf());
    if f.result == Some(true) {
        assert(is_healthy(outcomes[f.checks - 1]));
        assert(0 <= f.checks - 1 < max_attempts);
        assert(!is_healthy(outcomes[f.checks - 1]));
        assert(false);
    }
    assert(f.result == Some(false));
    assert(f.checks == max_attempts);
}

impl PollState {
    /// A poll that has not yet performed any check.
    pub fn new(max_attempts: u32) -> (s: Self)
        requires
            1 <= max_attempts,
        ensures
            s == poll_start(max_attempts),
            s.wf(),
    {
        PollState { max_attempts, checks: 0, result: None }
    }

    /// Whether another health check is still owed.
    pub fn pending(&self) -> (r: bool)
        ensures
            r == (self.result is None),
    {
        self.result.is_none()
    }

    /// Records the outcome of one health check.
    pub fn record_check(&mut self, o: HealthOutcome)
        requires
            old(self).wf(),
            old(self).result is None,
        ensures
            *final(self) == poll_step(*old(self), o),
            final(self).wf(),
    {
        let checks = self.checks + 1;
        self.checks = checks;
        if crate::health::outcome_is_healthy(o) {
            self.result = Some(true);
        } else if checks == self.max_attempts {
            self.result = Some(false);
        }
    }

    /// How many health checks have been recorded.
    pub fn checks_performed(&self) -> (r: u32)
        ensures
            r == self.checks,
    {
        self.checks
    }

    /// `None` while pending, `Some(true)` on success, `Some(false)` once the
    /// attempts are exhausted.
    pub fn conclusion(&self) -> (r: Option<bool>)
        ensures
            r == self.result,
    {
        self.result
    }
}

/// The whole poll policy applied to a recorded sequence of check outcomes:
/// returns whether the service became healthy and how many checks were
/// spent. The live loop instead drives [`PollState`] one check at a time, so
/// that it can stop probing as soon as the poll concludes.
pub fn wait_for_backend(outcomes: &Vec<HealthOutcome>, max_attempts: u32) -> (r: (bool, u32))
    requires
        1 <= max_attempts,
        outcomes@.len() >= max_attempts,
    ensures
        ({
            let f = poll_run(poll_start(max_attempts), outcomes@);
            &&& r.0 == (f.result == Some(true))
            &&& r.1 == f.checks
        }),
{
    let mut st = PollState::new(max_attempts);
    let mut i: usize = 0;
    while st.pending()
        invariant
            st.wf(),
            st.max_attempts == max_attempts,
            outcomes@.len() >= max_attempts,
            i <= outcomes@.len(),
            st == poll_run(poll_start(max_attempts), outcomes@.take(i as int)),
            st.result is None ==> i == st.checks,
        decreases max_attempts - i,
    {
        let ghost prev = st;
        let o = outcomes[i];
        st.record_check(o);
        proof {
            let done = outcomes@.take(i as int);
            let one = seq![outcomes@[i as int]];
            assert(outcomes@.take(i as int + 1) =~= done + one);
            lemma_run_append(poll_start(max_attempts), done, one);
            assert(one.drop_first() =~= Seq::<HealthOutcome>::empty());
            assert(poll_run(prev, one) == poll_run(
                poll_step(prev, one[0]),
                Seq::<HealthOutcome>::empty(),
            ));
            assert(poll_run(poll_step(prev, one[0]), Seq::<HealthOutcome>::empty()) == poll_step(
                prev,
                one[0],
            ));
        }
        i = i + 1;
    }
    proof {
        assert(outcomes@.take(i as int) + outcomes@.skip(i as int) =~= outcomes@);
        lemma_run_append(poll_start(max_attempts), outcomes@.take(i as int), outcomes@.skip(
            i as int,
        ));
        lemma_run_concluded(st, outcomes@.skip(i as int));
    }
    (st.result == Some(true), st.checks)
}

} // verus!
