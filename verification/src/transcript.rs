//! Driving one run over a transcript: the machine is fed a recorded sequence
//! of collaborator events and its actions are collected. The runner proves
//! the run-level nonce-threading law: every nonce a request consumes came
//! from a distinct earlier response, in order — so if the server never
//! repeats a nonce, no two requests are ever built with the same one.

use vstd::prelude::*;

verus! {

use crate::errors::IssuanceError;
use crate::orchestrator::{
    Machine,
    Event,
    Action,
    Output,
    wf,
    event_nonce,
    machine_nonce,
    output_nonce,
    lemma_step_nonce_law,
    RunConfig,
};

/// How a transcript-driven run ended.
#[derive(Debug)]
pub enum TranscriptOutcome {
    /// The run completed: the certificate was persisted.
    Completed,
    /// The run ended with this classified failure.
    Failed(IssuanceError),
    /// The transcript ran out while the machine still awaited an event.
    Exhausted,
}

/// The observable trace of one transcript-driven run: its outcome, every
/// action the machine emitted, and the nonce of every nonce-consuming
/// request, in emission order.
pub struct TranscriptRun {
    pub outcome: TranscriptOutcome,
    pub actions: Vec<Action>,
    pub sent_nonces: Vec<String>,
}

/// A witness that the sent nonces are threaded through the events: each sent
/// nonce is the nonce of a distinct event, and the event positions are
/// strictly increasing — each response's nonce is consumed at most once and
/// never out of order.
pub open spec fn threading_witness(srcs: Seq<int>, sent: Seq<Seq<char>>, events: Seq<Event>) -> bool {
    &&& srcs.len() == sent.len()
    &&& forall|j: int|
        0 <= j < srcs.len() ==> 0 <= #[trigger] srcs[j] < events.len() && event_nonce(
            events[srcs[j]],
        ) == Some(sent[j])
    &&& forall|j1: int, j2: int|
        0 <= j1 < j2 < srcs.len() ==> #[trigger] srcs[j1] < #[trigger] srcs[j2]
}

/// The run-level nonce-threading law: some strictly increasing assignment of
/// response positions accounts for every sent nonce.
pub open spec fn nonce_threaded(sent: Seq<Seq<char>>, events: Seq<Event>) -> bool {
    exists|srcs: Seq<int>| #[trigger] threading_witness(srcs, sent, events)
}

/// No two events carry the same nonce.
pub open spec fn distinct_event_nonces(events: Seq<Event>) -> bool {
    forall|i1: int, i2: int|
        0 <= i1 < i2 < events.len() && event_nonce(events[i1]) is Some && event_nonce(
            events[i2],
        ) is Some ==> event_nonce(events[i1]) != event_nonce(events[i2])
}

/// If the server never repeats a nonce, no two requests of the run are built
/// with the same nonce value.
pub proof fn lemma_no_nonce_reuse(sent: Seq<Seq<char>>, events: Seq<Event>)
    requires
        nonce_threaded(sent, events),
        distinct_event_nonces(events),
    ensures
        forall|j1: int, j2: int| 0 <= j1 < j2 < sent.len() ==> sent[j1] != sent[j2],
{
    let srcs = choose|srcs: Seq<int>| #[trigger] threading_witness(srcs, sent, events);
    assert forall|j1: int, j2: int| 0 <= j1 < j2 < sent.len() implies sent[j1] != sent[j2] by {
        assert(srcs[j1] < srcs[j2]);
        assert(event_nonce(events[srcs[j1]]) == Some(sent[j1]));
        assert(event_nonce(events[srcs[j2]]) == Some(sent[j2]));
    }
}

/// Runs the machine over a recorded transcript of events, collecting every
/// action and every consumed nonce. The consumed nonces are threaded through
/// the transcript's responses: `nonce_threaded` holds of the result.
#[verifier::rlimit(50)]
pub fn run_transcript(config: RunConfig, events: Vec<Event>) -> (r: TranscriptRun)
    ensures
        nonce_threaded(r.sent_nonces.deep_view(), events@),
        r.sent_nonces@.len() <= events@.len(),
{
    let ghost orig: Seq<Event> = events@;
    proof {
        assert(events.len() == events@.len());
    }
    let mut remaining = events;
    let (first_machine, first_action) = Machine::new(config);
    let mut m = first_machine;
    let mut actions: Vec<Action> = Vec::new();
    let mut sent_nonces: Vec<String> = Vec::new();
    let ghost mut srcs: Seq<int> = Seq::empty();
    let ghost mut cur_src: int = 0;
    let mut k: usize = 0;
    actions.push(first_action);
    loop
        invariant
            orig == events@,
            wf(m),
            orig.len() <= usize::MAX,
            0 <= k <= orig.len(),
            remaining@ == orig.subrange(k as int, orig.len() as int),
            srcs.len() == sent_nonces.deep_view().len(),
            sent_nonces@.len() <= k,
            forall|j: int|
                0 <= j < srcs.len() ==> 0 <= #[trigger] srcs[j] < k && event_nonce(
                    orig[srcs[j]],
                ) == Some(sent_nonces.deep_view()[j]),
            forall|j1: int, j2: int|
                0 <= j1 < j2 < srcs.len() ==> #[trigger] srcs[j1] < #[trigger] srcs[j2],
            srcs.len() > 0 ==> srcs[srcs.len() - 1] < k,
            machine_nonce(m) is Some ==> 0 <= cur_src < k && event_nonce(orig[cur_src])
                == machine_nonce(m) && (srcs.len() > 0 ==> srcs[srcs.len() - 1] < cur_src),
        decreases remaining@.len(),
    {
        if remaining.len() == 0 {
            proof {
                assert(srcs.len() == sent_nonces.deep_view().len());
                assert(threading_witness(srcs, sent_nonces.deep_view(), orig));
            }
            return TranscriptRun { outcome: TranscriptOutcome::Exhausted, actions, sent_nonces };
        }
        let ev = remaining.remove(0);
        proof {
            assert(remaining@ =~= orig.subrange(k + 1, orig.len() as int));
            assert(ev == orig[k as int]);
        }
        let ghost pre_m = m;
        let ghost gev = ev;
        let (m_next, out) = m.step(ev);
        m = m_next;
        let mut consumed: Option<String> = None;
        match &out {
            Output::Act(a) => {
                match a {
                    Action::Send { request } => {
                        consumed = Some(request.nonce.clone());
                    },
                    Action::ResolveAccount { nonce } => {
                        consumed = Some(nonce.clone());
                    },
                    _ => {},
                }
            },
            _ => {},
        }
        proof {
            lemma_step_nonce_law(pre_m, gev, m, out);
        }
        let ghost old_dv = sent_nonces.deep_view();
        match consumed {
            Some(s) => {
                let ghost sv = s@;
                proof {
                    assert(output_nonce(out) == Some(sv));
                    if event_nonce(gev) is Some {
                        srcs = srcs.push(k as int);
                    } else {
                        srcs = srcs.push(cur_src);
                    }
                }
                sent_nonces.push(s);
                proof {
                    assert(sent_nonces.deep_view() =~= old_dv.push(sv));
                }
            },
            None => {
                proof {
                    assert(output_nonce(out) is None);
                }
            },
        }
        proof {
            if event_nonce(gev) is Some {
                cur_src = k as int;
            }
        }
        match out {
            Output::Act(a) => {
                actions.push(a);
            },
            Output::Finished => {
                proof {
                    assert(threading_witness(srcs, sent_nonces.deep_view(), orig));
                }
                return TranscriptRun {
                    outcome: TranscriptOutcome::Completed,
                    actions,
                    sent_nonces,
                };
            },
            Output::Fail(e) => {
                proof {
                    assert(threading_witness(srcs, sent_nonces.deep_view(), orig));
                }
                return TranscriptRun {
                    outcome: TranscriptOutcome::Failed(e),
                    actions,
                    sent_nonces,
                };
            },
        }
        k = k + 1;
    }
}

} // verus!
