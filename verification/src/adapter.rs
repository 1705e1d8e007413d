//! The stream adapter: the rule behind one poll of a byte stream whose
//! caller drives suspension itself.
//!
//! A poll first checks, without suspending, whether the socket is ready for
//! the operation. Only if it is, the engine is asked once. Where the engine
//! is not ready although the socket is, the poll starts over instead of
//! telling the caller that something is ready.

use vstd::prelude::*;
use crate::attempt::Attempt;

verus! {

/// One readiness condition of a socket.
#[derive(Clone, Copy, Debug, PartialEq, Eq, Structural)]
pub enum Condition {
    /// The socket has bytes to read.
    Readable,
    /// The socket can take bytes to write.
    Writable,
}

/// The byte-level operation that a poll is for.
#[derive(Clone, Copy, Debug, PartialEq, Eq, Structural)]
pub enum StreamOp {
    /// Read bytes into the caller's buffer.
    Read,
    /// Write bytes from the caller's buffer.
    Write,
    /// Push buffered bytes out.
    Flush,
    /// Close the write side, which the engine does by flushing.
    Shutdown,
}

/// The answer of a non-suspending readiness check.
#[derive(Debug, PartialEq, Eq)]
pub enum Probe<E> {
    /// The socket meets the condition.
    Ready,
    /// The socket does not meet it yet; a wake-up is registered.
    NotYet,
    /// The check itself failed.
    Failed(E),
}

/// What the driver of a poll has to do next.
#[derive(Clone, Copy, Debug, PartialEq, Eq, Structural)]
pub enum PollRequest {
    /// Check the socket for the condition, without suspending.
    Check(Condition),
    /// Ask the engine once for the operation.
    Transfer,
}

/// What a poll tells its caller.
#[derive(Debug, PartialEq, Eq)]
pub enum Polled<T, E> {
    /// Nothing yet; the caller is woken when the socket is ready.
    Pending,
    /// The poll is over with this result.
    Ready(Result<T, E>),
}

/// The adapter's decision after an event.
#[derive(Debug, PartialEq, Eq)]
pub enum PollStep<T, E> {
    /// The poll goes on with this request.
    Continue(PollRequest),
    /// The poll returns this to its caller.
    Finished(Polled<T, E>),
}

impl StreamOp {
    /// The condition that the socket has to meet before the engine is asked:
    /// readable for a read, writable for the others.
    pub open spec fn spec_condition(self) -> Condition {
        match self {
            StreamOp::Read => Condition::Readable,
            _ => Condition::Writable,
        }
    }

    /// The operation that the engine performs: a shutdown is a flush, the
    /// others are themselves.
    pub open spec fn spec_engine_op(self) -> StreamOp {
        match self {
            StreamOp::Shutdown => StreamOp::Flush,
            other => other,
        }
    }

    /// The condition to check before asking the engine.
    pub fn condition(self) -> (condition: Condition)
        ensures
            condition == self.spec_condition(),
    {
        match self {
            StreamOp::Read => Condition::Readable,
            _ => Condition::Writable,
        }
    }

    /// The operation to ask the engine for.
    pub fn engine_op(self) -> (op: StreamOp)
        ensures
            op == self.spec_engine_op(),
            op != StreamOp::Shutdown,
            op.spec_condition() == self.spec_condition(),
    {
        match self {
            StreamOp::Shutdown => StreamOp::Flush,
            other => other,
        }
    }

    /// The request that every poll for this operation starts with.
    pub fn begin(self) -> (request: PollRequest)
        ensures
            request == PollRequest::Check(self.spec_condition()),
    {
        PollRequest::Check(self.condition())
    }
}

/// The decision after a readiness check.
pub open spec fn spec_after_probe<T, E>(probe: Probe<E>) -> PollStep<T, E> {
    match probe {
        Probe::Ready => PollStep::Continue(PollRequest::Transfer),
        Probe::NotYet => PollStep::Finished(Polled::Pending),
        Probe::Failed(cause) => PollStep::Finished(Polled::Ready(Err(cause))),
    }
}

/// The decision after the engine was asked once.
pub open spec fn spec_after_transfer<T, E>(op: StreamOp, outcome: Attempt<T, E>) -> PollStep<T, E> {
    match outcome {
        Attempt::Success(value) => PollStep::Finished(Polled::Ready(Ok(value))),
        Attempt::NotReady => PollStep::Continue(PollRequest::Check(op.spec_condition())),
        Attempt::HardError(cause) => PollStep::Finished(Polled::Ready(Err(cause))),
    }
}

/// Decides after a readiness check: ask the engine where the socket is
/// ready, report pending where it is not, hand on a failure of the check.
pub fn after_probe<T, E>(probe: Probe<E>) -> (step: PollStep<T, E>)
    ensures
        step == spec_after_probe::<T, E>(probe),
{
    match probe {
        Probe::Ready => PollStep::Continue(PollRequest::Transfer),
        Probe::NotYet => PollStep::Finished(Polled::Pending),
        Probe::Failed(cause) => PollStep::Finished(Polled::Ready(Err(cause))),
    }
}

/// Decides after the engine was asked once: a value, also a partial byte
/// count, and a hard error end the poll; a not-ready engine sends the poll
/// back to the readiness check.
pub fn after_transfer<T, E>(op: StreamOp, outcome: Attempt<T, E>) -> (step: PollStep<T, E>)
    ensures
        step == spec_after_transfer(op, outcome),
{
    match outcome {
        Attempt::Success(value) => PollStep::Finished(Polled::Ready(Ok(value))),
        Attempt::NotReady => PollStep::Continue(PollRequest::Check(op.condition())),
        Attempt::HardError(cause) => PollStep::Finished(Polled::Ready(Err(cause))),
    }
}

} // verus!
