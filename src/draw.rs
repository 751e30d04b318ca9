//! Random choice of an index.

use vstd::prelude::*;
use rand::Rng;

verus! {

/// Relies on rand's `thread_rng` and `Rng::gen_range`: a value of the range
/// `0..len`, which must not be empty (`gen_range` panics on an empty one).
#[verifier::external_body]
pub(crate) fn draw_index(len: usize) -> (r: usize)
    requires
        len > 0,
    ensures
        r < len,
{
    rand::thread_rng().gen_range(0..len)
}

/// A random index below `limit`, drawn uniformly and afresh each call.
pub fn rand(limit: usize) -> (r: usize)
    requires
        limit > 0,
    ensures
        r < limit,
{
    draw_index(limit)
}

} // verus!
