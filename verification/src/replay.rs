//! Running a bridge over a recorded script of events, and what holds of
//! every such run.

use vstd::prelude::*;
use crate::attempt::Attempt;
use crate::bridge::{advance, spec_run, spec_wait_of, BridgeError, Event, Request, Step, Trace};
use crate::direction::{BlockDirection, Interest};

verus! {

/// What a bridge did over a script of events.
#[derive(Debug, PartialEq, Eq)]
pub struct Replay<T, E> {
    /// The result, where the bridge finished within the script.
    pub outcome: Option<Result<T, BridgeError<E>>>,
    /// The interest sets that the reactor was asked to wait for, in order.
    pub waits: Vec<Interest>,
    /// How many events of the script the bridge took.
    pub consumed: usize,
}

impl<T, E> View for Replay<T, E> {
    type V = Trace<T, E>;

    open spec fn view(&self) -> Trace<T, E> {
        Trace { outcome: self.outcome, waits: self.waits@, consumed: self.consumed as nat }
    }
}

/// Runs a fresh bridge over `script`, as a driver would that got these
/// events from the engine and the reactor. The run stops when the bridge
/// finishes, when the script ends, or before the first event that does
/// not answer the pending request.
pub fn replay<T, E>(script: Vec<Event<T, E>>) -> (done: Replay<T, E>)
    ensures
        done@ == spec_run(Request::Attempt, script@),
{
    let total = script.len();
    let mut rest = script;
    let mut request = Request::Attempt;
    let mut waits: Vec<Interest> = Vec::new();
    let mut consumed: usize = 0;
    while rest.len() > 0
        invariant
            total == script@.len(),
            consumed + rest@.len() == total,
            spec_run(Request::Attempt, script@) == (Trace {
                outcome: spec_run(request, rest@).outcome,
                waits: waits@ + spec_run(request, rest@).waits,
                consumed: (consumed + spec_run(request, rest@).consumed) as nat,
            }),
        decreases rest@.len(),
    {
        let ghost before = rest@;
        let event = rest.remove(0);
        assert(rest@ =~= before.drop_first());
        match advance(request, event) {
            None => {
                assert(waits@ + Seq::<Interest>::empty() =~= waits@);
                return Replay { outcome: None, waits, consumed };
            },
            Some(Step::Finished(result)) => {
                assert(waits@ + Seq::<Interest>::empty() =~= waits@);
                return Replay { outcome: Some(result), waits, consumed: consumed + 1 };
            },
            Some(Step::Continue(next)) => {
                let ghost earlier = waits@;
                match next {
                    Request::Wait(interest) => {
                        waits.push(interest);
                    },
                    _ => {},
                }
                assert(waits@ =~= earlier + spec_wait_of(next));
                assert(earlier + (spec_wait_of(next) + spec_run(next, rest@).waits) =~= waits@
                    + spec_run(next, rest@).waits);
                consumed = consumed + 1;
                request = next;
            },
        }
    }
    assert(waits@ + Seq::<Interest>::empty() =~= waits@);
    Replay { outcome: None, waits, consumed }
}

/// One full retry round: a try that was not ready, the direction that the
/// connection then reported, and a wait that ended well.
pub open spec fn spec_round<T, E>(direction: BlockDirection) -> Seq<Event<T, E>> {
    seq![
        Event::Attempted(Attempt::NotReady),
        Event::Directed(direction),
        Event::Waited(Ok(())),
    ]
}

/// One retry round after the other, one for each direction.
pub open spec fn spec_rounds<T, E>(directions: Seq<BlockDirection>) -> Seq<Event<T, E>>
    decreases directions.len(),
{
    if directions.len() == 0 {
        Seq::empty()
    } else {
        spec_round(directions[0]) + spec_rounds(directions.drop_first())
    }
}

/// Every direction names something to wait for.
pub open spec fn spec_all_blocked(directions: Seq<BlockDirection>) -> bool {
    forall|i: int| 0 <= i < directions.len() ==> directions[i] != BlockDirection::Neither
}

/// The interest sets that belong to the directions, one for one.
pub open spec fn spec_interests(directions: Seq<BlockDirection>) -> Seq<Interest> {
    Seq::new(
        directions.len(),
        |i: int| Interest::spec_for_direction(directions[i]).unwrap(),
    )
}

/// How many tries in `script` were not ready.
pub open spec fn spec_not_ready_count<T, E>(script: Seq<Event<T, E>>) -> nat
    decreases script.len(),
{
    if script.len() == 0 {
        0
    } else {
        let first: nat = if script[0] == Event::<T, E>::Attempted(Attempt::NotReady) {
            1
        } else {
            0
        };
        first + spec_not_ready_count(script.drop_first())
    }
}

/// Retry rounds in front of a script add their waits to its run and change
/// nothing else: the bridge is back at a fresh try after each round.
pub proof fn lemma_rounds_prefix<T, E>(directions: Seq<BlockDirection>, tail: Seq<Event<T, E>>)
    requires
        spec_all_blocked(directions),
    ensures
        spec_run(Request::Attempt, spec_rounds::<T, E>(directions) + tail).outcome == spec_run(
            Request::Attempt,
            tail,
        ).outcome,
        spec_run(Request::Attempt, spec_rounds::<T, E>(directions) + tail).waits
            == spec_interests(directions) + spec_run(Request::Attempt, tail).waits,
        spec_run(Request::Attempt, spec_rounds::<T, E>(directions) + tail).consumed == 3
            * directions.len() + spec_run(Request::Attempt, tail).consumed,
    decreases directions.len(),
{
    let script = spec_rounds::<T, E>(directions) + tail;
    if directions.len() == 0 {
        assert(script =~= tail);
        assert(spec_interests(directions) + spec_run(Request::Attempt, tail).waits
            =~= spec_run(Request::Attempt, tail).waits);
    } else {
        let later = directions.drop_first();
        let interest = Interest::spec_for_direction(directions[0]).unwrap();
        let after_one = script.drop_first();
        let after_two = after_one.drop_first();
        let after_three = after_two.drop_first();
        assert(script[0] == Event::<T, E>::Attempted(Attempt::NotReady));
        assert(after_one[0] == Event::<T, E>::Directed(directions[0]));
        assert(after_two[0] == Event::<T, E>::Waited(Ok(())));
        assert(after_three =~= spec_rounds::<T, E>(later) + tail);
        assert(spec_all_blocked(later)) by {
            assert forall|i: int| 0 <= i < later.len() implies later[i]
                != BlockDirection::Neither by {
                assert(later[i] == directions[i + 1]);
            }
        }
        lemma_rounds_prefix::<T, E>(later, tail);
        let run_three = spec_run(Request::Attempt, after_three);
        let run_two = spec_run(Request::Wait(interest), after_two);
        let run_one = spec_run(Request::Direction, after_one);
        assert(run_two.waits =~= run_three.waits);
        assert(run_one.waits =~= seq![interest] + run_three.waits);
        assert(spec_run(Request::Attempt, script).waits =~= seq![interest] + run_three.waits);
        assert(spec_interests(directions) =~= seq![interest] + spec_interests(later));
        assert(seq![interest] + (spec_interests(later) + spec_run(Request::Attempt, tail).waits)
            =~= spec_interests(directions) + spec_run(Request::Attempt, tail).waits);
    }
}

/// A script of not-ready tries that ends in a success makes the bridge
/// return the success value, with the last event of the script, after
/// asking the reactor to wait once for each not-ready try and for the
/// interest set of the direction reported after that try.
pub proof fn law_success_after_retries<T, E>(directions: Seq<BlockDirection>, value: T)
    requires
        spec_all_blocked(directions),
    ensures
        ({
            let script = spec_rounds::<T, E>(directions) + seq![
                Event::Attempted(Attempt::Success(value)),
            ];
            let trace = spec_run(Request::Attempt, script);
            &&& trace.outcome == Some(Ok::<T, BridgeError<E>>(value))
            &&& trace.waits == spec_interests(directions)
            &&& trace.waits.len() == directions.len()
            &&& trace.waits.len() == spec_not_ready_count(script)
            &&& trace.consumed == script.len()
        }),
{
    let tail = seq![Event::<T, E>::Attempted(Attempt::Success(value))];
    lemma_rounds_prefix::<T, E>(directions, tail);
    assert(spec_interests(directions) + Seq::<Interest>::empty() =~= spec_interests(directions));
    lemma_rounds_count::<T, E>(directions, tail);
    assert(tail.drop_first() =~= Seq::<Event<T, E>>::empty());
    assert(spec_not_ready_count(tail.drop_first()) == 0);
    lemma_rounds_len::<T, E>(directions);
}

/// A script of retry rounds holds three events for each round.
pub proof fn lemma_rounds_len<T, E>(directions: Seq<BlockDirection>)
    ensures
        spec_rounds::<T, E>(directions).len() == 3 * directions.len(),
    decreases directions.len(),
{
    if directions.len() > 0 {
        lemma_rounds_len::<T, E>(directions.drop_first());
    }
}

/// Retry rounds in front of a script add one not-ready try each to its count.
pub proof fn lemma_rounds_count<T, E>(directions: Seq<BlockDirection>, tail: Seq<Event<T, E>>)
    ensures
        spec_not_ready_count(spec_rounds::<T, E>(directions) + tail) == directions.len()
            + spec_not_ready_count(tail),
    decreases directions.len(),
{
    let script = spec_rounds::<T, E>(directions) + tail;
    if directions.len() == 0 {
        assert(script =~= tail);
    } else {
        let later = directions.drop_first();
        let after_one = script.drop_first();
        let after_two = after_one.drop_first();
        let after_three = after_two.drop_first();
        assert(script[0] == Event::<T, E>::Attempted(Attempt::NotReady));
        assert(after_one[0] == Event::<T, E>::Directed(directions[0]));
        assert(after_two[0] == Event::<T, E>::Waited(Ok(())));
        assert(after_three =~= spec_rounds::<T, E>(later) + tail);
        lemma_rounds_count::<T, E>(later, tail);
        assert(spec_not_ready_count(after_two) == spec_not_ready_count(after_three));
        assert(spec_not_ready_count(after_one) == spec_not_ready_count(after_two));
        assert(spec_not_ready_count(script) == 1 + spec_not_ready_count(after_one));
    }
}

/// A hard error from the first try is the bridge's result, engine error
/// for engine error, and the reactor is never asked to wait, whatever the
/// script holds after it.
pub proof fn law_hard_error_without_wait<T, E>(cause: E, rest: Seq<Event<T, E>>)
    ensures
        ({
            let script = seq![Event::<T, E>::Attempted(Attempt::HardError(cause))] + rest;
            let trace = spec_run(Request::Attempt, script);
            &&& trace.outcome == Some(Err::<T, BridgeError<E>>(BridgeError::Engine(cause)))
            &&& trace.waits.len() == 0
            &&& trace.consumed == 1
        }),
{
}

/// A hard error after any number of retry rounds is the bridge's result,
/// and no wait follows it: the reactor was asked once for each round.
pub proof fn law_hard_error_after_retries<T, E>(
    directions: Seq<BlockDirection>,
    cause: E,
    rest: Seq<Event<T, E>>,
)
    requires
        spec_all_blocked(directions),
    ensures
        ({
            let script = spec_rounds::<T, E>(directions) + (seq![
                Event::<T, E>::Attempted(Attempt::HardError(cause)),
            ] + rest);
            let trace = spec_run(Request::Attempt, script);
            &&& trace.outcome == Some(Err::<T, BridgeError<E>>(BridgeError::Engine(cause)))
            &&& trace.waits == spec_interests(directions)
        }),
{
    let tail = seq![Event::<T, E>::Attempted(Attempt::HardError(cause))] + rest;
    lemma_rounds_prefix::<T, E>(directions, tail);
    assert(spec_interests(directions) + Seq::<Interest>::empty() =~= spec_interests(directions));
}

/// A not-ready try after which the connection names no direction ends the
/// bridge with the error of its own kind, and without a wait for that try.
pub proof fn law_direction_violation<T, E>(
    directions: Seq<BlockDirection>,
    rest: Seq<Event<T, E>>,
)
    requires
        spec_all_blocked(directions),
    ensures
        ({
            let script = spec_rounds::<T, E>(directions) + (seq![
                Event::<T, E>::Attempted(Attempt::NotReady),
                Event::<T, E>::Directed(BlockDirection::Neither),
            ] + rest);
            let trace = spec_run(Request::Attempt, script);
            &&& trace.outcome == Some(Err::<T, BridgeError<E>>(BridgeError::DirectionViolation))
            &&& trace.waits == spec_interests(directions)
        }),
{
    let tail = seq![
        Event::<T, E>::Attempted(Attempt::NotReady),
        Event::<T, E>::Directed(BlockDirection::Neither),
    ] + rest;
    lemma_rounds_prefix::<T, E>(directions, tail);
    let after_one = tail.drop_first();
    assert(after_one[0] == Event::<T, E>::Directed(BlockDirection::Neither));
    let run_one = spec_run(Request::Direction, after_one);
    assert(run_one.waits =~= Seq::<Interest>::empty());
    assert(run_one.outcome == Some(Err::<T, BridgeError<E>>(BridgeError::DirectionViolation)));
    assert(spec_run(Request::Attempt, tail).waits =~= Seq::<Interest>::empty());
    assert(spec_interests(directions) + Seq::<Interest>::empty() =~= spec_interests(directions));
}

/// The interest set that the bridge waits for after a not-ready try is
/// fixed by the direction alone: inbound asks for readable only, outbound
/// for writable only, both for either.
pub proof fn law_interest_follows_direction<T, E>(direction: BlockDirection)
    requires
        direction != BlockDirection::Neither,
    ensures
        ({
            let trace = spec_run(Request::Attempt, spec_round::<T, E>(direction));
            &&& trace.outcome is None
            &&& trace.waits.len() == 1
            &&& trace.waits[0].spec_readable() == (direction == BlockDirection::Inbound
                || direction == BlockDirection::Both)
            &&& trace.waits[0].spec_writable() == (direction == BlockDirection::Outbound
                || direction == BlockDirection::Both)
        }),
{
    let script = spec_round::<T, E>(direction);
    let after_one = script.drop_first();
    let after_two = after_one.drop_first();
    let after_three = after_two.drop_first();
    assert(after_three.len() == 0);
    assert(after_one[0] == Event::<T, E>::Directed(direction));
    assert(after_two[0] == Event::<T, E>::Waited(Ok(())));
    let interest = Interest::spec_for_direction(direction).unwrap();
    assert(spec_run::<T, E>(Request::Attempt, after_three).waits =~= Seq::<Interest>::empty());
    assert(spec_run(Request::Wait(interest), after_two).waits =~= Seq::<Interest>::empty());
    assert(spec_run(Request::Direction, after_one).waits =~= seq![interest]);
    assert(spec_run(Request::Attempt, script).waits =~= seq![interest]);
}

/// A run takes no more events than the script holds.
pub proof fn lemma_run_within_script<T, E>(request: Request, script: Seq<Event<T, E>>)
    ensures
        spec_run(request, script).consumed <= script.len(),
    decreases script.len(),
{
    if script.len() > 0 {
        match crate::bridge::spec_advance(request, script[0]) {
            Some(Step::Continue(next)) => {
                lemma_run_within_script(next, script.drop_first());
            },
            _ => {},
        }
    }
}

/// Whether a run ended with the engine's own word: a success or a hard error.
pub open spec fn spec_ended_by_engine<T, E>(trace: Trace<T, E>) -> bool {
    match trace.outcome {
        Some(Ok(_)) => true,
        Some(Err(BridgeError::Engine(_))) => true,
        _ => false,
    }
}

/// In a run that ended with the engine's own word, from whatever request
/// it started, the reactor was asked to wait once for each not-ready try
/// among the events taken, and once more where the run started after a
/// not-ready try whose direction was still to be asked.
pub proof fn lemma_waits_match_not_ready<T, E>(request: Request, script: Seq<Event<T, E>>)
    requires
        spec_ended_by_engine(spec_run(request, script)),
    ensures
        spec_run(request, script).waits.len() == spec_not_ready_count(
            script.take(spec_run(request, script).consumed as int),
        ) + (if request == Request::Direction {
            1nat
        } else {
            0nat
        }),
    decreases script.len(),
{
    let trace = spec_run(request, script);
    lemma_run_within_script(request, script);
    if script.len() > 0 {
        let taken = script.take(trace.consumed as int);
        match crate::bridge::spec_advance(request, script[0]) {
            Some(Step::Continue(next)) => {
                let rest = spec_run(next, script.drop_first());
                lemma_run_within_script(next, script.drop_first());
                lemma_waits_match_not_ready(next, script.drop_first());
                assert(taken.drop_first() =~= script.drop_first().take(rest.consumed as int));
                assert(taken[0] == script[0]);
            },
            Some(Step::Finished(_)) => {
                assert(taken.drop_first() =~= Seq::<Event<T, E>>::empty());
                assert(taken[0] == script[0]);
                assert(spec_not_ready_count(taken.drop_first()) == 0);
            },
            None => {},
        }
    }
}

/// Whatever the script, where the bridge returns the engine's success or
/// hard error, the reactor was asked to wait exactly as many times as
/// tries were not ready before that.
pub proof fn law_waits_equal_not_ready<T, E>(script: Seq<Event<T, E>>)
    requires
        spec_ended_by_engine(spec_run(Request::Attempt, script)),
    ensures
        spec_run(Request::Attempt, script).waits.len() == spec_not_ready_count(
            script.take(spec_run(Request::Attempt, script).consumed as int),
        ),
{
    lemma_waits_match_not_ready(Request::Attempt, script);
}

/// The bridge returns once: a run that came to a result takes no further
/// event, so whatever follows in the script changes nothing.
pub proof fn law_result_is_final<T, E>(
    request: Request,
    script: Seq<Event<T, E>>,
    more: Seq<Event<T, E>>,
)
    requires
        spec_run(request, script).outcome is Some,
    ensures
        spec_run(request, script + more) == spec_run(request, script),
    decreases script.len(),
{
    if script.len() > 0 {
        let longer = script + more;
        assert(longer[0] == script[0]);
        assert(longer.drop_first() =~= script.drop_first() + more);
        match crate::bridge::spec_advance(request, script[0]) {
            Some(Step::Continue(next)) => {
                law_result_is_final(next, script.drop_first(), more);
            },
            _ => {},
        }
    }
}

/// A wait that fails ends the operation with the reactor's error, after
/// the waits of the rounds before it and the one wait that failed.
pub proof fn law_failed_wait_ends_the_operation<T, E>(
    directions: Seq<BlockDirection>,
    direction: BlockDirection,
    cause: E,
    rest: Seq<Event<T, E>>,
)
    requires
        spec_all_blocked(directions),
        direction != BlockDirection::Neither,
    ensures
        ({
            let script = spec_rounds::<T, E>(directions) + (seq![
                Event::<T, E>::Attempted(Attempt::NotReady),
                Event::<T, E>::Directed(direction),
                Event::<T, E>::Waited(Err(cause)),
            ] + rest);
            let trace = spec_run(Request::Attempt, script);
            &&& trace.outcome == Some(Err::<T, BridgeError<E>>(BridgeError::Transport(cause)))
            &&& trace.waits == spec_interests(directions).push(
                Interest::spec_for_direction(direction).unwrap(),
            )
        }),
{
    let tail = seq![
        Event::<T, E>::Attempted(Attempt::NotReady),
        Event::<T, E>::Directed(direction),
        Event::<T, E>::Waited(Err(cause)),
    ] + rest;
    let interest = Interest::spec_for_direction(direction).unwrap();
    lemma_rounds_prefix::<T, E>(directions, tail);
    let after_one = tail.drop_first();
    let after_two = after_one.drop_first();
    assert(after_one[0] == Event::<T, E>::Directed(direction));
    assert(after_two[0] == Event::<T, E>::Waited(Err(cause)));
    let run_two = spec_run(Request::Wait(interest), after_two);
    assert(run_two.waits =~= Seq::<Interest>::empty());
    let run_one = spec_run(Request::Direction, after_one);
    assert(run_one.waits =~= seq![interest]);
    assert(spec_run(Request::Attempt, tail).waits =~= seq![interest]);
    assert(spec_interests(directions) + seq![interest] =~= spec_interests(directions).push(
        interest,
    ));
}

/// Every interest set that the bridge asks the reactor for names at least
/// one condition, whatever the script.
pub proof fn law_waits_name_a_condition<T, E>(request: Request, script: Seq<Event<T, E>>)
    ensures
        forall|i: int|
            0 <= i < spec_run(request, script).waits.len() ==> {
                let interest = #[trigger] spec_run(request, script).waits[i];
                interest.spec_readable() || interest.spec_writable()
            },
{
}

/// What the bridge returns is the word of the last event it took: a value
/// is the engine's own value, an engine error is the hard error of the
/// last try, a transport error is the error of the last wait, and a
/// direction violation follows a connection that named no direction. A
/// try that was not ready never ends a run.
pub proof fn law_result_is_the_last_event<T, E>(request: Request, script: Seq<Event<T, E>>)
    requires
        spec_run(request, script).outcome is Some,
    ensures
        ({
            let trace = spec_run(request, script);
            let last = script[trace.consumed - 1];
            &&& 1 <= trace.consumed <= script.len()
            &&& last != Event::<T, E>::Attempted(Attempt::NotReady)
            &&& match trace.outcome.unwrap() {
                Ok(value) => last == Event::<T, E>::Attempted(Attempt::Success(value)),
                Err(BridgeError::Engine(cause)) => last == Event::<T, E>::Attempted(
                    Attempt::HardError(cause),
                ),
                Err(BridgeError::Transport(cause)) => last == Event::<T, E>::Waited(Err(cause)),
                Err(BridgeError::DirectionViolation) => last == Event::<T, E>::Directed(
                    BlockDirection::Neither,
                ),
            }
        }),
    decreases script.len(),
{
    if script.len() > 0 {
        match crate::bridge::spec_advance(request, script[0]) {
            Some(Step::Continue(next)) => {
                let rest = spec_run(next, script.drop_first());
                law_result_is_the_last_event(next, script.drop_first());
                assert(script.drop_first()[rest.consumed - 1] == script[rest.consumed as int]);
            },
            _ => {},
        }
    }
}

/// An operation that is abandoned part-way has come to nothing: a run
/// over the first `taken` events of a script has either no result yet or
/// the result of the whole run, never another one.
pub proof fn law_abandoned_run_has_no_other_result<T, E>(
    request: Request,
    script: Seq<Event<T, E>>,
    taken: int,
)
    requires
        0 <= taken <= script.len(),
    ensures
        spec_run(request, script.take(taken)).outcome is None || spec_run(
            request,
            script.take(taken),
        ).outcome == spec_run(request, script).outcome,
{
    let prefix = script.take(taken);
    if spec_run(request, prefix).outcome is Some {
        law_result_is_final(request, prefix, script.skip(taken));
        assert(prefix + script.skip(taken) =~= script);
    }
}

} // verus!
