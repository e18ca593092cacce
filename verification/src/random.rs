//! Chance.

use vstd::prelude::*;
use rand::Rng;

verus! {

/// Calls `rand::Rng::gen_range` on the generator of `rand::thread_rng`, with the range from
/// 0 up to and without `n`: what comes back lies in that range.
#[verifier::external_body]
pub(crate) fn random_below(n: usize) -> (out: usize)
    requires
        n > 0,
    ensures
        out < n,
{
    rand::thread_rng().gen_range(0..n)
}

/// One of `pool`, drawn at random; none of an empty pool.
pub fn pick(pool: &Vec<u64>) -> (out: Option<u64>)
    ensures
        out is None <==> pool@.len() == 0,
        out matches Some(x) ==> pool@.contains(x),
{
    if pool.len() == 0 {
        None
    } else {
        let i = random_below(pool.len());
        Some(pool[i])
    }
}

} // verus!
