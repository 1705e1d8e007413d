//! The block direction of a live session.

use vstd::prelude::*;
use crate::bridge::{after_direction, spec_after_direction, Step};
use crate::direction::BlockDirection;

verus! {

/// `ssh2::Session`, which Verus carries through without looking inside.
#[verifier::external_type_specification]
#[verifier::external_body]
pub struct ExSession(ssh2::Session);

/// Calls `ssh2::Session::block_directions` and gives its answer in this
/// library's own type, variant for variant. The answer depends on what the
/// connection is doing, so nothing is claimed of it.
#[verifier::external_body]
fn block_direction(session: &ssh2::Session) -> (direction: BlockDirection) {
    match session.block_directions() {
        ssh2::BlockDirections::None => BlockDirection::Neither,
        ssh2::BlockDirections::Inbound => BlockDirection::Inbound,
        ssh2::BlockDirections::Outbound => BlockDirection::Outbound,
        ssh2::BlockDirections::Both => BlockDirection::Both,
    }
}

/// Decides after a not-ready try on `session`: asks the session, now, for
/// its block direction and decides as [`after_direction`] does for it.
///
/// The direction is the connection's own business, so the contract holds
/// for whichever the session reports.
pub fn after_not_ready<T, E>(session: &ssh2::Session) -> (step: Step<T, E>)
    ensures
        exists|direction: BlockDirection| step == #[trigger] spec_after_direction::<T, E>(direction),
{
    let direction = block_direction(session);
    after_direction(direction)
}

} // verus!
