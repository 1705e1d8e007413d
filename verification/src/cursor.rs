//! The accounting of a read buffer that may start out uninitialized.
//!
//! Of the `capacity` bytes of a buffer, the first `filled` hold data for the
//! caller, and the first `initialized` have been written at some time. The
//! caller only ever sees the filled part, so the filled part never reaches
//! past the initialized part.

use vstd::prelude::*;
use crate::adapter::{PollRequest, PollStep, Polled, StreamOp};
use crate::attempt::Attempt;

verus! {

/// Where a read buffer stands.
#[derive(Clone, Copy, Debug)]
pub struct ReadCursor {
    capacity: usize,
    filled: usize,
    initialized: usize,
}

impl ReadCursor {
    #[verifier::type_invariant]
    spec fn well_formed(self) -> bool {
        self.filled <= self.initialized && self.initialized <= self.capacity
    }

    /// The size of the buffer.
    pub closed spec fn spec_capacity(self) -> nat {
        self.capacity as nat
    }

    /// How many bytes hold data for the caller.
    pub closed spec fn spec_filled(self) -> nat {
        self.filled as nat
    }

    /// How many bytes have been written at some time.
    pub closed spec fn spec_initialized(self) -> nat {
        self.initialized as nat
    }

    /// How many bytes the engine may still write.
    pub open spec fn spec_remaining(self) -> int {
        self.spec_capacity() - self.spec_filled()
    }

    /// The cursor after the engine wrote `count` bytes behind the filled
    /// part: these bytes, and no others, are now filled as well.
    pub open spec fn spec_advanced(self, count: nat, after: ReadCursor) -> bool {
        &&& after.spec_capacity() == self.spec_capacity()
        &&& after.spec_filled() == self.spec_filled() + count
        &&& after.spec_initialized() == if self.spec_initialized() >= self.spec_filled() + count {
            self.spec_initialized()
        } else {
            self.spec_filled() + count
        }
    }

    /// The cursor of a buffer of `capacity` bytes that holds nothing yet.
    pub fn new(capacity: usize) -> (cursor: ReadCursor)
        ensures
            cursor.spec_capacity() == capacity,
            cursor.spec_filled() == 0,
            cursor.spec_initialized() == 0,
    {
        ReadCursor { capacity, filled: 0, initialized: 0 }
    }

    /// The cursor of a buffer that is partly filled and initialized. There
    /// is none where the filled part would reach past the initialized part,
    /// or the initialized part past the buffer.
    pub fn at(capacity: usize, filled: usize, initialized: usize) -> (cursor: Option<ReadCursor>)
        ensures
            cursor is Some <==> filled <= initialized && initialized <= capacity,
            cursor matches Some(c) ==> c.spec_capacity() == capacity && c.spec_filled() == filled
                && c.spec_initialized() == initialized,
    {
        if filled <= initialized && initialized <= capacity {
            Some(ReadCursor { capacity, filled, initialized })
        } else {
            None
        }
    }

    /// The size of the buffer.
    pub fn capacity(&self) -> (capacity: usize)
        ensures
            capacity == self.spec_capacity(),
            self.spec_initialized() <= capacity,
    {
        proof {
            use_type_invariant(self);
        }
        self.capacity
    }

    /// How many bytes hold data for the caller.
    pub fn filled(&self) -> (filled: usize)
        ensures
            filled == self.spec_filled(),
            filled <= self.spec_initialized(),
    {
        proof {
            use_type_invariant(self);
        }
        self.filled
    }

    /// How many bytes have been written at some time.
    pub fn initialized(&self) -> (initialized: usize)
        ensures
            initialized == self.spec_initialized(),
            self.spec_filled() <= initialized <= self.spec_capacity(),
    {
        proof {
            use_type_invariant(self);
        }
        self.initialized
    }

    /// How many bytes the engine may still write: the size of the part
    /// behind the filled bytes.
    pub fn remaining(&self) -> (remaining: usize)
        ensures
            remaining == self.spec_remaining(),
    {
        proof {
            use_type_invariant(self);
        }
        self.capacity - self.filled
    }

    /// Records that the engine wrote `count` bytes behind the filled part.
    pub fn commit(&mut self, count: usize)
        requires
            count <= old(self).spec_remaining(),
        ensures
            old(self).spec_advanced(count as nat, *final(self)),
    {
        proof {
            use_type_invariant(&*self);
        }
        let filled = self.filled + count;
        let initialized = if self.initialized >= filled {
            self.initialized
        } else {
            filled
        };
        *self = ReadCursor { capacity: self.capacity, filled, initialized };
    }

    /// The decision of a read poll after the engine was asked once. A byte
    /// count is recorded in the cursor and ends the poll, a count of zero
    /// too; a hard error ends it and a not-ready engine sends it back to the
    /// readiness check, both with the cursor as it was.
    pub open spec fn spec_after_read<E>(outcome: Attempt<usize, E>) -> PollStep<(), E> {
        match outcome {
            Attempt::Success(_) => PollStep::Finished(Polled::Ready(Ok(()))),
            Attempt::NotReady => PollStep::Continue(
                PollRequest::Check(StreamOp::Read.spec_condition()),
            ),
            Attempt::HardError(cause) => PollStep::Finished(Polled::Ready(Err(cause))),
        }
    }

    /// Decides a read poll after the engine was asked once, and records in
    /// the cursor the bytes that the engine wrote.
    pub fn after_read<E>(&mut self, outcome: Attempt<usize, E>) -> (step: PollStep<(), E>)
        requires
            outcome matches Attempt::Success(count) ==> count <= old(self).spec_remaining(),
        ensures
            step == Self::spec_after_read(outcome),
            match outcome {
                Attempt::Success(count) => old(self).spec_advanced(count as nat, *final(self)),
                _ => *final(self) == *old(self),
            },
    {
        match outcome {
            Attempt::Success(count) => {
                self.commit(count);
                PollStep::Finished(Polled::Ready(Ok(())))
            },
            Attempt::NotReady => PollStep::Continue(PollRequest::Check(StreamOp::Read.condition())),
            Attempt::HardError(cause) => PollStep::Finished(Polled::Ready(Err(cause))),
        }
    }
}

} // verus!
