//! The poll-until-ready primitive: a bounded retry loop over successive
//! observations of a signed resource. Each fetch yields one observation; the
//! loop stops the moment the caller's predicate is satisfied, aborts the
//! moment a terminal failure is observed, and times out after the configured
//! maximum number of fetches.

use vstd::prelude::*;

verus! {

/// What one fetch of the polled resource showed: whether the caller's
/// predicate held, and whether the resource reported a terminal failure state
/// from which the predicate can never become true.
#[derive(Clone, Copy, Debug, PartialEq, Eq, Structural)]
pub struct PollObservation {
    pub satisfied: bool,
    pub terminal_failure: bool,
}

/// What to do after one observation, given how many fetches (this one
/// included) the bound still allowed.
#[derive(Clone, Copy, Debug, PartialEq, Eq, Structural)]
pub enum PollDecision {
    /// The predicate holds: stop successfully.
    Advance,
    /// Terminal failure: stop at once, do not fetch again.
    Fail,
    /// The bound is exhausted: stop with a timeout.
    TimeOut,
    /// Fetch again; the driver waits its poll interval (a fixed delay, or
    /// the server's retry hint) before the next fetch.
    Retry,
}

/// The polling decision rule. `attempts_left` counts the observation just
/// made, so `attempts_left <= 1` means the bound is spent.
pub open spec fn poll_decision_spec(obs: PollObservation, attempts_left: u64) -> PollDecision {
    if obs.satisfied {
        PollDecision::Advance
    } else if obs.terminal_failure {
        PollDecision::Fail
    } else if attempts_left <= 1 {
        PollDecision::TimeOut
    } else {
        PollDecision::Retry
    }
}

/// Decides, after one fetch, whether to stop and how, or to fetch again.
pub fn poll_decide(obs: PollObservation, attempts_left: u64) -> (r: PollDecision)
    ensures
        r == poll_decision_spec(obs, attempts_left),
{
    if obs.satisfied {
        PollDecision::Advance
    } else if obs.terminal_failure {
        PollDecision::Fail
    } else if attempts_left <= 1 {
        PollDecision::TimeOut
    } else {
        PollDecision::Retry
    }
}

/// How a whole polling run ended, with the exact number of fetches it made.
#[derive(Clone, Copy, Debug, PartialEq, Eq, Structural)]
pub enum PollOutcome {
    /// The predicate was satisfied on the last fetch counted.
    Satisfied { fetches: u64 },
    /// A terminal failure was observed on the last fetch counted; polling
    /// stopped there rather than timing out.
    Failed { fetches: u64 },
    /// The predicate never held within the bound; exactly `fetches` (the
    /// configured maximum) fetches were made.
    TimedOut { fetches: u64 },
}

/// Exact characterization of a polling run over the first `max` of the given
/// observations: which outcome is reported and after how many fetches.
pub open spec fn poll_result_ok(obs: Seq<PollObservation>, max: u64, r: PollOutcome) -> bool {
    match r {
        PollOutcome::Satisfied { fetches } => {
            &&& 1 <= fetches <= max
            &&& obs[fetches - 1].satisfied
            &&& forall|j: int|
                0 <= j < fetches - 1 ==> !obs[j].satisfied && !obs[j].terminal_failure
        },
        PollOutcome::Failed { fetches } => {
            &&& 1 <= fetches <= max
            &&& obs[fetches - 1].terminal_failure
            &&& !obs[fetches - 1].satisfied
            &&& forall|j: int|
                0 <= j < fetches - 1 ==> !obs[j].satisfied && !obs[j].terminal_failure
        },
        PollOutcome::TimedOut { fetches } => {
            &&& fetches == max
            &&& forall|j: int| 0 <= j < max ==> !obs[j].satisfied && !obs[j].terminal_failure
        },
    }
}

/// Runs the bounded poll loop over a sequence of observations (observation
/// `i` is what fetch `i + 1` showed). Stops at the first satisfied or
/// terminal observation, and after at most `max` fetches.
pub fn run_poll(observations: &Vec<PollObservation>, max: u64) -> (r: PollOutcome)
    requires
        1 <= max,
        max <= observations@.len(),
    ensures
        poll_result_ok(observations@, max, r),
{
    let n = observations.len();
    let mut i: u64 = 0;
    while i < max
        invariant
            0 <= i <= max,
            n == observations@.len(),
            max <= n,
            forall|j: int| 0 <= j < i ==> !observations@[j].satisfied && !observations@[
                j
            ].terminal_failure,
        decreases max - i,
    {
        let obs = observations[i as usize];
        let attempts_left = max - i;
        match poll_decide(obs, attempts_left) {
            PollDecision::Advance => {
                return PollOutcome::Satisfied { fetches: i + 1 };
            },
            PollDecision::Fail => {
                return PollOutcome::Failed { fetches: i + 1 };
            },
            PollDecision::TimeOut => {
                proof {
                    assert(i == max - 1);
                    assert forall|j: int| 0 <= j < max implies !observations@[j].satisfied
                        && !observations@[j].terminal_failure by {
                        if j < i {
                        } else {
                            assert(j == i as int);
                        }
                    }
                }
                return PollOutcome::TimedOut { fetches: max };
            },
            PollDecision::Retry => {
                i += 1;
            },
        }
    }
    PollOutcome::TimedOut { fetches: max }
}

/// A predicate true on the first fetch stops the loop immediately: exactly
/// one fetch is made, whatever the rest of the observations hold.
pub proof fn lemma_poll_immediate(obs: Seq<PollObservation>, max: u64, r: PollOutcome)
    requires
        poll_result_ok(obs, max, r),
        1 <= max <= obs.len(),
        obs[0].satisfied,
    ensures
        r == (PollOutcome::Satisfied { fetches: 1u64 }),
{
    match r {
        PollOutcome::Satisfied { fetches } => {
            if fetches > 1 {
                assert(!obs[0].satisfied);
            }
        },
        PollOutcome::Failed { fetches } => {
            if fetches > 1 {
                assert(!obs[0].satisfied);
            }
        },
        PollOutcome::TimedOut { fetches } => {
            assert(!obs[0].satisfied);
        },
    }
}

/// A terminal failure observed before the predicate ever held ends the run as
/// `Failed`, not as a timeout, with no further fetches after the failing one.
pub proof fn lemma_poll_terminal_failure(obs: Seq<PollObservation>, max: u64, r: PollOutcome, k: int)
    requires
        poll_result_ok(obs, max, r),
        1 <= max <= obs.len(),
        0 <= k < max,
        obs[k].terminal_failure,
        !obs[k].satisfied,
        forall|j: int| 0 <= j < k ==> !obs[j].satisfied && !obs[j].terminal_failure,
    ensures
        r == (PollOutcome::Failed { fetches: (k + 1) as u64 }),
{
    match r {
        PollOutcome::Satisfied { fetches } => {
            if fetches - 1 < k {
                assert(!obs[fetches - 1].satisfied);
            } else if fetches - 1 == k {
                assert(!obs[k].satisfied);
            } else {
                assert(!obs[k].terminal_failure);
            }
        },
        PollOutcome::Failed { fetches } => {
            if fetches - 1 < k {
                assert(!obs[fetches - 1].terminal_failure);
            } else if fetches - 1 > k {
                assert(!obs[k].terminal_failure);
            }
        },
        PollOutcome::TimedOut { fetches } => {
            assert(!obs[k].terminal_failure);
        },
    }
}

/// A predicate that never holds within the bound, with no terminal failure,
/// ends the run as `TimedOut` after exactly the configured maximum number of
/// fetches.
pub proof fn lemma_poll_timeout(obs: Seq<PollObservation>, max: u64, r: PollOutcome)
    requires
        poll_result_ok(obs, max, r),
        1 <= max <= obs.len(),
        forall|j: int| 0 <= j < max ==> !obs[j].satisfied && !obs[j].terminal_failure,
    ensures
        r == (PollOutcome::TimedOut { fetches: max }),
{
    match r {
        PollOutcome::Satisfied { fetches } => {
            assert(!obs[fetches - 1].satisfied);
        },
        PollOutcome::Failed { fetches } => {
            assert(!obs[fetches - 1].terminal_failure);
        },
        PollOutcome::TimedOut { .. } => {},
    }
}

} // verus!
