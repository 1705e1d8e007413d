//! The three-way outcome of one non-blocking engine operation.

use vstd::prelude::*;

verus! {

/// What one try of an engine operation came to.
#[derive(Debug, PartialEq, Eq)]
pub enum Attempt<T, E> {
    /// The operation finished and produced a value.
    Success(T),
    /// The operation cannot progress without further socket activity.
    NotReady,
    /// The operation failed for good.
    HardError(E),
}

impl<T, E> Attempt<T, E> {
    /// The outcome that a failure stands for: a would-block failure is the
    /// not-ready signal and loses its cause, any other failure is a hard
    /// error that keeps it.
    pub open spec fn spec_failed(would_block: bool, cause: E) -> Attempt<T, E> {
        if would_block {
            Attempt::NotReady
        } else {
            Attempt::HardError(cause)
        }
    }

    /// The outcome that a plain result stands for, given whether its error,
    /// if it has one, is a would-block failure.
    pub open spec fn spec_classify(result: Result<T, E>, would_block: bool) -> Attempt<T, E> {
        match result {
            Ok(value) => Attempt::Success(value),
            Err(cause) => Self::spec_failed(would_block, cause),
        }
    }

    /// Turns a failure into an outcome.
    pub fn failed(would_block: bool, cause: E) -> (outcome: Attempt<T, E>)
        ensures
            outcome == Self::spec_failed(would_block, cause),
    {
        if would_block {
            Attempt::NotReady
        } else {
            Attempt::HardError(cause)
        }
    }

    /// Turns a plain result into an outcome. `would_block` is read only
    /// where the result is an error.
    pub fn classify(result: Result<T, E>, would_block: bool) -> (outcome: Attempt<T, E>)
        ensures
            outcome == Self::spec_classify(result, would_block),
    {
        match result {
            Ok(value) => Attempt::Success(value),
            Err(cause) => Self::failed(would_block, cause),
        }
    }
}

/// `std::io::Error`, which Verus carries through without looking inside.
#[verifier::external_type_specification]
#[verifier::external_body]
pub struct ExIoError(std::io::Error);

/// Whether the kind of `error` is `ErrorKind::WouldBlock`. The kind is
/// fixed when the error is made and is a matter of the error alone.
pub uninterp spec fn spec_kind_would_block(error: std::io::Error) -> bool;

/// Calls `std::io::Error::kind` and tells whether the kind is
/// `ErrorKind::WouldBlock`. The contract gives that answer its name and
/// claims nothing else of it.
#[verifier::external_body]
fn is_would_block(error: &std::io::Error) -> (would_block: bool)
    ensures
        would_block == spec_kind_would_block(*error),
{
    matches!(error.kind(), std::io::ErrorKind::WouldBlock)
}

impl<T> Attempt<T, std::io::Error> {
    /// The outcome that an I/O result stands for: a value is a success, an
    /// error of the would-block kind is the not-ready signal, and any other
    /// error is a hard error that keeps the error as it came.
    pub open spec fn spec_from_io(result: Result<T, std::io::Error>) -> Attempt<T, std::io::Error> {
        match result {
            Ok(value) => Attempt::Success(value),
            Err(cause) => Self::spec_failed(spec_kind_would_block(cause), cause),
        }
    }

    /// Turns an I/O result into an outcome. A would-block error never comes
    /// out as an error: it is the signal to wait and try again.
    pub fn from_io(result: Result<T, std::io::Error>) -> (outcome: Attempt<T, std::io::Error>)
        ensures
            outcome == Self::spec_from_io(result),
    {
        match result {
            Ok(value) => Attempt::Success(value),
            Err(cause) => {
                let would_block = is_would_block(&cause);
                Self::failed(would_block, cause)
            },
        }
    }
}

} // verus!
