//! What the byte counts of successive polls add up to.
//!
//! A write poll reports how many bytes the engine took from the front of
//! the caller's buffer, and a read poll records how many bytes the engine
//! put behind the filled part. A caller that moves on by these counts hands
//! each byte over once and in order. What the engine and the peer then do
//! with the bytes is theirs.

use vstd::prelude::*;
use crate::cursor::ReadCursor;

verus! {

/// The sum of the counts.
pub open spec fn spec_total(counts: Seq<nat>) -> nat
    decreases counts.len(),
{
    if counts.len() == 0 {
        0
    } else {
        counts[0] + spec_total(counts.drop_first())
    }
}

/// Whether each count is within what is left of `len` bytes at its turn.
pub open spec fn spec_counts_fit(len: nat, counts: Seq<nat>) -> bool
    decreases counts.len(),
{
    counts.len() == 0 || (counts[0] <= len && spec_counts_fit(
        (len - counts[0]) as nat,
        counts.drop_first(),
    ))
}

/// The bytes handed over by a run of write polls on `data`, where each
/// poll took its count from the front of what the polls before had left.
pub open spec fn spec_accepted(data: Seq<u8>, counts: Seq<nat>) -> Seq<u8>
    decreases counts.len(),
{
    if counts.len() == 0 {
        Seq::empty()
    } else {
        data.take(counts[0] as int) + spec_accepted(
            data.skip(counts[0] as int),
            counts.drop_first(),
        )
    }
}

/// The bytes handed over by a run of write polls are the front of the
/// data, as long as the counts add up to: no byte is left out, handed over
/// twice or out of its place.
pub proof fn law_accepted_is_the_front(data: Seq<u8>, counts: Seq<nat>)
    requires
        spec_counts_fit(data.len(), counts),
    ensures
        spec_total(counts) <= data.len(),
        spec_accepted(data, counts) == data.take(spec_total(counts) as int),
    decreases counts.len(),
{
    if counts.len() == 0 {
        assert(data.take(0) =~= Seq::<u8>::empty());
    } else {
        let first = counts[0] as int;
        let left = data.skip(first);
        let later = counts.drop_first();
        law_accepted_is_the_front(left, later);
        assert(data.take(first) + left.take(spec_total(later) as int) =~= data.take(
            first + spec_total(later),
        ));
    }
}

/// Once the counts of a run of write polls add up to the length of the
/// data, the bytes handed over are the data, byte for byte.
pub proof fn law_complete_write_is_the_data(data: Seq<u8>, counts: Seq<nat>)
    requires
        spec_counts_fit(data.len(), counts),
        spec_total(counts) == data.len(),
    ensures
        spec_accepted(data, counts) == data,
{
    law_accepted_is_the_front(data, counts);
    assert(data.take(data.len() as int) =~= data);
}

/// Two reads in a row leave the cursor where one read of both counts
/// would: what is filled grows by the sum, and by nothing else.
pub proof fn law_reads_add_up(
    start: ReadCursor,
    between: ReadCursor,
    end: ReadCursor,
    first: nat,
    second: nat,
)
    requires
        start.spec_advanced(first, between),
        between.spec_advanced(second, end),
    ensures
        start.spec_advanced(first + second, end),
{
}

} // verus!
