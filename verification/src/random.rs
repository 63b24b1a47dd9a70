//! The isolated randomness source of the selection workflows.

use vstd::prelude::*;

verus! {

/// Relies on rand's `Rng::gen_range` over `thread_rng`: a value drawn
/// from `0..n`, which is nonempty by the precondition. The draw is
/// random; nothing beyond the bound holds of any outcome.
#[verifier::external_body]
pub(crate) fn pick_index(n: usize) -> (r: usize)
    requires
        n > 0,
    ensures
        r < n,
{
    rand::Rng::gen_range(&mut rand::thread_rng(), 0..n)
}

} // verus!
