//! One poll of the stream adapter over a recorded script of events, and
//! what holds of every such poll.

use vstd::prelude::*;
use crate::adapter::{
    spec_after_probe, spec_after_transfer, PollRequest, PollStep, Polled, Probe, StreamOp,
};
use crate::attempt::Attempt;

verus! {

/// What the driver of a poll reports back to the adapter.
pub ghost enum PollEvent<T, E> {
    /// The answer of the readiness check.
    Probed(Probe<E>),
    /// The outcome of the one engine call.
    Transferred(Attempt<T, E>),
}

/// What the adapter did over a script of events.
pub ghost struct PollTrace<T, E> {
    /// What the poll told its caller, where it ended within the script.
    pub outcome: Option<Polled<T, E>>,
    /// How many times the engine was asked.
    pub transfers: nat,
    /// How many events of the script the poll took.
    pub consumed: nat,
}

/// The decision after `event`, where `event` answers `request`; `None`
/// where it answers the other request.
pub open spec fn spec_poll_advance<T, E>(
    op: StreamOp,
    request: PollRequest,
    event: PollEvent<T, E>,
) -> Option<PollStep<T, E>> {
    match (request, event) {
        (PollRequest::Check(_), PollEvent::Probed(probe)) => Some(spec_after_probe(probe)),
        (PollRequest::Transfer, PollEvent::Transferred(outcome)) => Some(
            spec_after_transfer(op, outcome),
        ),
        _ => None,
    }
}

/// One for a request to ask the engine, zero for the other.
pub open spec fn spec_transfer_of(request: PollRequest) -> nat {
    match request {
        PollRequest::Transfer => 1,
        _ => 0,
    }
}

/// Runs a poll for `op` whose pending request is `request` over `script`.
/// The run stops when the poll ends, when the script ends, or before the
/// first event that does not answer the pending request.
pub open spec fn spec_poll_run<T, E>(
    op: StreamOp,
    request: PollRequest,
    script: Seq<PollEvent<T, E>>,
) -> PollTrace<T, E>
    decreases script.len(),
{
    if script.len() == 0 {
        PollTrace { outcome: None, transfers: 0, consumed: 0 }
    } else {
        match spec_poll_advance(op, request, script[0]) {
            None => PollTrace { outcome: None, transfers: 0, consumed: 0 },
            Some(PollStep::Finished(polled)) => PollTrace {
                outcome: Some(polled),
                transfers: 0,
                consumed: 1,
            },
            Some(PollStep::Continue(next)) => {
                let rest = spec_poll_run(op, next, script.drop_first());
                PollTrace {
                    outcome: rest.outcome,
                    transfers: spec_transfer_of(next) + rest.transfers,
                    consumed: rest.consumed + 1,
                }
            },
        }
    }
}

/// The request that a poll for `op` starts with.
pub open spec fn spec_begin(op: StreamOp) -> PollRequest {
    PollRequest::Check(op.spec_condition())
}

/// `rounds` times a ready socket with an engine that is not ready.
pub open spec fn spec_stalls<T, E>(rounds: nat) -> Seq<PollEvent<T, E>>
    decreases rounds,
{
    if rounds == 0 {
        Seq::empty()
    } else {
        seq![PollEvent::Probed(Probe::Ready), PollEvent::Transferred(Attempt::NotReady)]
            + spec_stalls((rounds - 1) as nat)
    }
}

/// A run takes no more events than the script holds.
pub proof fn lemma_poll_within_script<T, E>(
    op: StreamOp,
    request: PollRequest,
    script: Seq<PollEvent<T, E>>,
)
    ensures
        spec_poll_run(op, request, script).consumed <= script.len(),
    decreases script.len(),
{
    if script.len() > 0 {
        match spec_poll_advance(op, request, script[0]) {
            Some(PollStep::Continue(next)) => {
                lemma_poll_within_script(op, next, script.drop_first());
            },
            _ => {},
        }
    }
}

/// A socket that is not ready makes the poll pending at once: the engine
/// is not asked.
pub proof fn law_pending_without_engine_call<T, E>(op: StreamOp, rest: Seq<PollEvent<T, E>>)
    ensures
        ({
            let script = seq![PollEvent::<T, E>::Probed(Probe::NotYet)] + rest;
            let trace = spec_poll_run(op, spec_begin(op), script);
            &&& trace.outcome == Some(Polled::<T, E>::Pending)
            &&& trace.transfers == 0
            &&& trace.consumed == 1
        }),
{
}

/// While the socket is ready and the engine is not, the poll stays inside
/// the same call: it asks the engine once for each such round, and what it
/// tells its caller is decided by what comes after the rounds alone.
pub proof fn law_stalls_stay_inside_the_poll<T, E>(
    op: StreamOp,
    rounds: nat,
    tail: Seq<PollEvent<T, E>>,
)
    ensures
        ({
            let trace = spec_poll_run(op, spec_begin(op), spec_stalls::<T, E>(rounds) + tail);
            let after = spec_poll_run(op, spec_begin(op), tail);
            &&& trace.outcome == after.outcome
            &&& trace.transfers == rounds + after.transfers
            &&& trace.consumed == 2 * rounds + after.consumed
        }),
    decreases rounds,
{
    let script = spec_stalls::<T, E>(rounds) + tail;
    if rounds == 0 {
        assert(script =~= tail);
    } else {
        let after_one = script.drop_first();
        let after_two = after_one.drop_first();
        assert(script[0] == PollEvent::<T, E>::Probed(Probe::Ready));
        assert(after_one[0] == PollEvent::<T, E>::Transferred(Attempt::NotReady));
        assert(after_two =~= spec_stalls::<T, E>((rounds - 1) as nat) + tail);
        law_stalls_stay_inside_the_poll::<T, E>(op, (rounds - 1) as nat, tail);
        let run_two = spec_poll_run(op, spec_begin(op), after_two);
        let run_one = spec_poll_run(op, PollRequest::Transfer, after_one);
        assert(run_one.transfers == run_two.transfers);
        assert(spec_poll_run(op, spec_begin(op), script).transfers == 1 + run_one.transfers);
    }
}

/// What a poll tells its caller is the word of the last event it took: a
/// pending poll ended on a socket that was not ready, a value is the
/// engine's own value, and an error is the engine's or the check's own
/// error. A not-ready engine never ends a poll.
pub proof fn law_poll_reports_the_last_event<T, E>(
    op: StreamOp,
    request: PollRequest,
    script: Seq<PollEvent<T, E>>,
)
    requires
        spec_poll_run(op, request, script).outcome is Some,
    ensures
        ({
            let trace = spec_poll_run(op, request, script);
            let last = script[trace.consumed - 1];
            &&& 1 <= trace.consumed <= script.len()
            &&& match trace.outcome.unwrap() {
                Polled::Pending => last == PollEvent::<T, E>::Probed(Probe::NotYet),
                Polled::Ready(Ok(value)) => last == PollEvent::<T, E>::Transferred(
                    Attempt::Success(value),
                ),
                Polled::Ready(Err(cause)) => last == PollEvent::<T, E>::Transferred(
                    Attempt::HardError(cause),
                ) || last == PollEvent::<T, E>::Probed(Probe::Failed(cause)),
            }
        }),
    decreases script.len(),
{
    if script.len() > 0 {
        match spec_poll_advance(op, request, script[0]) {
            Some(PollStep::Continue(next)) => {
                let rest = spec_poll_run(op, next, script.drop_first());
                law_poll_reports_the_last_event(op, next, script.drop_first());
                assert(script.drop_first()[rest.consumed - 1] == script[rest.consumed as int]);
            },
            _ => {},
        }
    }
}

/// How many readiness checks in `script` found the socket ready.
pub open spec fn spec_ready_count<T, E>(script: Seq<PollEvent<T, E>>) -> nat
    decreases script.len(),
{
    if script.len() == 0 {
        0
    } else {
        let first: nat = if script[0] == PollEvent::<T, E>::Probed(Probe::Ready) {
            1
        } else {
            0
        };
        first + spec_ready_count(script.drop_first())
    }
}

/// In a poll that ended, the engine was asked exactly once for each check
/// that found the socket ready, counting from the pending request on.
pub proof fn law_one_engine_call_per_ready_socket<T, E>(
    op: StreamOp,
    request: PollRequest,
    script: Seq<PollEvent<T, E>>,
)
    requires
        spec_poll_run(op, request, script).outcome is Some,
    ensures
        spec_poll_run(op, request, script).transfers == spec_ready_count(
            script.take(spec_poll_run(op, request, script).consumed as int),
        ),
    decreases script.len(),
{
    let trace = spec_poll_run(op, request, script);
    lemma_poll_within_script(op, request, script);
    if script.len() > 0 {
        let taken = script.take(trace.consumed as int);
        match spec_poll_advance(op, request, script[0]) {
            Some(PollStep::Continue(next)) => {
                let rest = spec_poll_run(op, next, script.drop_first());
                lemma_poll_within_script(op, next, script.drop_first());
                law_one_engine_call_per_ready_socket(op, next, script.drop_first());
                assert(taken.drop_first() =~= script.drop_first().take(rest.consumed as int));
                assert(taken[0] == script[0]);
            },
            Some(PollStep::Finished(_)) => {
                assert(taken.drop_first() =~= Seq::<PollEvent<T, E>>::empty());
                assert(taken[0] == script[0]);
                assert(spec_ready_count(taken.drop_first()) == 0);
            },
            None => {},
        }
    }
}

/// A poll reports once: a run that came to a report takes no further
/// event, so whatever follows in the script changes nothing.
pub proof fn law_report_is_final<T, E>(
    op: StreamOp,
    request: PollRequest,
    script: Seq<PollEvent<T, E>>,
    more: Seq<PollEvent<T, E>>,
)
    requires
        spec_poll_run(op, request, script).outcome is Some,
    ensures
        spec_poll_run(op, request, script + more) == spec_poll_run(op, request, script),
    decreases script.len(),
{
    if script.len() > 0 {
        let longer = script + more;
        assert(longer[0] == script[0]);
        assert(longer.drop_first() =~= script.drop_first() + more);
        match spec_poll_advance(op, request, script[0]) {
            Some(PollStep::Continue(next)) => {
                law_report_is_final(op, next, script.drop_first(), more);
            },
            _ => {},
        }
    }
}

} // verus!
