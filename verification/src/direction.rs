//! Block directions reported by the engine and the readiness interests
//! that a reactor can be asked to wait for.

use vstd::prelude::*;

verus! {

/// Which kind of socket readiness the engine needs before a retry can make
/// progress. The value is a property of the whole connection.
#[derive(Clone, Copy, Debug, PartialEq, Eq, Structural)]
pub enum BlockDirection {
    /// The engine is not blocked on the socket.
    Neither,
    /// The engine waits for bytes from the peer.
    Inbound,
    /// The engine waits for room to send bytes to the peer.
    Outbound,
    /// The engine waits for either of the two.
    Both,
}

/// What a reactor is asked to wait for: a set of readiness conditions
/// that names at least one of readable and writable. The wait is over as
/// soon as the socket meets one condition of the set.
#[derive(Clone, Copy, Debug, PartialEq, Eq, Structural)]
pub enum Interest {
    /// The socket has bytes to read.
    Readable,
    /// The socket can take bytes to write.
    Writable,
    /// Either of the two.
    Either,
}

impl Interest {
    /// Whether the set holds the readable condition.
    pub open spec fn spec_readable(self) -> bool {
        self == Interest::Readable || self == Interest::Either
    }

    /// Whether the set holds the writable condition.
    pub open spec fn spec_writable(self) -> bool {
        self == Interest::Writable || self == Interest::Either
    }

    /// The interest set that corresponds to a block direction, if there is one.
    pub open spec fn spec_for_direction(direction: BlockDirection) -> Option<Interest> {
        match direction {
            BlockDirection::Neither => None,
            BlockDirection::Inbound => Some(Interest::Readable),
            BlockDirection::Outbound => Some(Interest::Writable),
            BlockDirection::Both => Some(Interest::Either),
        }
    }

    /// Maps a block direction to the interest set to wait for. A direction of
    /// `Neither` names nothing to wait for and gives no interest.
    pub fn for_direction(direction: BlockDirection) -> (interest: Option<Interest>)
        ensures
            interest == Self::spec_for_direction(direction),
    {
        match direction {
            BlockDirection::Neither => None,
            BlockDirection::Inbound => Some(Interest::Readable),
            BlockDirection::Outbound => Some(Interest::Writable),
            BlockDirection::Both => Some(Interest::Either),
        }
    }
}

} // verus!
