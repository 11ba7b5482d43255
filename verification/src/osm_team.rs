//! Sub-groups of participants ("teams") split from the world group.
//!
//! The communication runtime creates a team from a start rank, a stride and
//! a size, and reports success through an integer return code.  The team
//! handle itself lives in the runtime; this module holds the verified
//! pieces around it: the membership a strided split denotes, and the
//! mapping of the runtime's return code to a result.  A team-scoped
//! broadcast has the same data effect as the world broadcast — the
//! destination region holds the root's source bytes — restricted to the
//! members this module computes; `crate::osm_slice::OsmSlice::broadcast`
//! states that effect.

use vstd::prelude::*;

verus! {

/// Failure to create a team.
#[derive(Clone, Copy, Debug, PartialEq, Eq, Structural)]
pub enum TeamCreationError {
    Fail,
}

/// The rank of member `i` of a strided team.
pub open spec fn spec_strided_member(start: int, stride: int, i: int) -> int {
    start + i * stride
}

/// The world ranks that make up a strided team: `size` members starting at
/// `start`, `stride` apart.
pub fn strided_team_ranks(start: usize, stride: usize, size: usize) -> (r: Vec<usize>)
    requires
        start + size * stride <= usize::MAX,
    ensures
        r@.len() == size,
        forall|i: int|
            0 <= i < size ==> #[trigger] r@[i] == spec_strided_member(
                start as int,
                stride as int,
                i,
            ),
{
    let mut ranks: Vec<usize> = Vec::with_capacity(size);
    let mut i: usize = 0;
    while i < size
        invariant
            i <= size,
            start + size * stride <= usize::MAX,
            ranks@.len() == i,
            forall|j: int|
                0 <= j < i ==> #[trigger] ranks@[j] == spec_strided_member(
                    start as int,
                    stride as int,
                    j,
                ),
        decreases size - i,
    {
        proof {
            assert((i as int) * stride <= (size as int) * stride) by (nonlinear_arith)
                requires
                    0 <= i < size,
                    0 <= stride,
            ;
        }
        ranks.push(start + i * stride);
        i += 1;
    }
    ranks
}

/// Maps the runtime's team-split return code to a result: zero is success,
/// anything else is a creation failure.
pub fn team_split_result(code: i32) -> (r: Result<(), TeamCreationError>)
    ensures
        r is Ok <==> code == 0,
        r is Err ==> r == Err::<(), TeamCreationError>(TeamCreationError::Fail),
{
    if code == 0 {
        Ok(())
    } else {
        Err(TeamCreationError::Fail)
    }
}

} // verus!
