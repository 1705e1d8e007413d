//! The readiness bridge: the retry rule that turns repeated non-blocking
//! attempts into one operation that a task can suspend on.
//!
//! The bridge decides; its driver acts. The driver performs what a
//! [`Request`] asks for, reports what happened, and gets the next
//! [`Step`], until a step is [`Step::Finished`]. The bridge keeps no
//! count of retries and sets no deadline.

use vstd::prelude::*;
use crate::attempt::Attempt;
use crate::direction::{BlockDirection, Interest};

verus! {

/// Why a bridged operation failed.
#[derive(Debug, PartialEq, Eq)]
pub enum BridgeError<E> {
    /// The engine reported a hard error; it is handed on as it came.
    Engine(E),
    /// Waiting on the socket failed.
    Transport(E),
    /// The engine signalled not-ready while naming no direction to wait
    /// for, which its contract rules out.
    DirectionViolation,
}

/// What the driver has to do next.
#[derive(Clone, Copy, Debug, PartialEq, Eq, Structural)]
pub enum Request {
    /// Try the operation once.
    Attempt,
    /// Ask the connection for its current block direction.
    Direction,
    /// Suspend until the socket meets at least one condition of the set.
    Wait(Interest),
}

/// The bridge's decision after an event.
#[derive(Debug, PartialEq, Eq)]
pub enum Step<T, E> {
    /// The operation goes on with this request.
    Continue(Request),
    /// The operation is over with this result.
    Finished(Result<T, BridgeError<E>>),
}

/// What the driver reports back to the bridge.
#[derive(Debug, PartialEq, Eq)]
pub enum Event<T, E> {
    /// The outcome of one try, in answer to [`Request::Attempt`].
    Attempted(Attempt<T, E>),
    /// The connection's block direction, in answer to [`Request::Direction`].
    Directed(BlockDirection),
    /// How the wait ended, in answer to [`Request::Wait`].
    Waited(Result<(), E>),
}

/// The decision after one try of the operation.
pub open spec fn spec_after_attempt<T, E>(outcome: Attempt<T, E>) -> Step<T, E> {
    match outcome {
        Attempt::Success(value) => Step::Finished(Ok(value)),
        Attempt::NotReady => Step::Continue(Request::Direction),
        Attempt::HardError(cause) => Step::Finished(Err(BridgeError::Engine(cause))),
    }
}

/// The decision once the block direction is known.
pub open spec fn spec_after_direction<T, E>(direction: BlockDirection) -> Step<T, E> {
    match Interest::spec_for_direction(direction) {
        Some(interest) => Step::Continue(Request::Wait(interest)),
        None => Step::Finished(Err(BridgeError::DirectionViolation)),
    }
}

/// The decision once the wait is over.
pub open spec fn spec_after_wait<T, E>(waited: Result<(), E>) -> Step<T, E> {
    match waited {
        Ok(_) => Step::Continue(Request::Attempt),
        Err(cause) => Step::Finished(Err(BridgeError::Transport(cause))),
    }
}

/// Decides after one try of the operation: a success and a hard error end
/// the operation at once, a not-ready signal asks for the block direction.
pub fn after_attempt<T, E>(outcome: Attempt<T, E>) -> (step: Step<T, E>)
    ensures
        step == spec_after_attempt(outcome),
{
    match outcome {
        Attempt::Success(value) => Step::Finished(Ok(value)),
        Attempt::NotReady => Step::Continue(Request::Direction),
        Attempt::HardError(cause) => Step::Finished(Err(BridgeError::Engine(cause))),
    }
}

/// Decides once the block direction is known: wait for the matching
/// interest set, or fail where the engine named no direction.
pub fn after_direction<T, E>(direction: BlockDirection) -> (step: Step<T, E>)
    ensures
        step == spec_after_direction::<T, E>(direction),
{
    match Interest::for_direction(direction) {
        Some(interest) => Step::Continue(Request::Wait(interest)),
        None => Step::Finished(Err(BridgeError::DirectionViolation)),
    }
}

/// Decides once the wait is over: try again, or fail where the wait failed.
pub fn after_wait<T, E>(waited: Result<(), E>) -> (step: Step<T, E>)
    ensures
        step == spec_after_wait::<T, E>(waited),
{
    match waited {
        Ok(_) => Step::Continue(Request::Attempt),
        Err(cause) => Step::Finished(Err(BridgeError::Transport(cause))),
    }
}

/// The request that every bridged operation starts with.
pub fn start() -> (request: Request)
    ensures
        request == Request::Attempt,
{
    Request::Attempt
}

/// The decision after `event`, where `event` answers `request`; `None`
/// where it answers another request.
pub open spec fn spec_advance<T, E>(request: Request, event: Event<T, E>) -> Option<Step<T, E>> {
    match (request, event) {
        (Request::Attempt, Event::Attempted(outcome)) => Some(spec_after_attempt(outcome)),
        (Request::Direction, Event::Directed(direction)) => Some(spec_after_direction(direction)),
        (Request::Wait(_), Event::Waited(waited)) => Some(spec_after_wait(waited)),
        _ => None,
    }
}

/// Decides after any event. Gives `None`, and decides nothing, where the
/// event is no answer to the request.
pub fn advance<T, E>(request: Request, event: Event<T, E>) -> (step: Option<Step<T, E>>)
    ensures
        step == spec_advance(request, event),
{
    match (request, event) {
        (Request::Attempt, Event::Attempted(outcome)) => Some(after_attempt(outcome)),
        (Request::Direction, Event::Directed(direction)) => Some(after_direction(direction)),
        (Request::Wait(_), Event::Waited(waited)) => Some(after_wait(waited)),
        _ => None,
    }
}

/// What a bridge did over a script of events.
pub ghost struct Trace<T, E> {
    /// The result, where the bridge finished within the script.
    pub outcome: Option<Result<T, BridgeError<E>>>,
    /// The interest sets that the reactor was asked to wait for, in order.
    pub waits: Seq<Interest>,
    /// How many events of the script the bridge took.
    pub consumed: nat,
}

/// The interest set that `request` asks the reactor for, as a sequence of
/// at most one element.
pub open spec fn spec_wait_of(request: Request) -> Seq<Interest> {
    match request {
        Request::Wait(interest) => seq![interest],
        _ => Seq::empty(),
    }
}

/// Runs a bridge whose pending request is `request` over `script`. The run
/// stops when the bridge finishes, when the script ends, or before the
/// first event that does not answer the pending request.
pub open spec fn spec_run<T, E>(request: Request, script: Seq<Event<T, E>>) -> Trace<T, E>
    decreases script.len(),
{
    if script.len() == 0 {
        Trace { outcome: None, waits: Seq::empty(), consumed: 0 }
    } else {
        match spec_advance(request, script[0]) {
            None => Trace { outcome: None, waits: Seq::empty(), consumed: 0 },
            Some(Step::Finished(result)) => Trace {
                outcome: Some(result),
                waits: Seq::empty(),
                consumed: 1,
            },
            Some(Step::Continue(next)) => {
                let rest = spec_run(next, script.drop_first());
                Trace {
                    outcome: rest.outcome,
                    waits: spec_wait_of(next) + rest.waits,
                    consumed: rest.consumed + 1,
                }
            },
        }
    }
}

} // verus!
