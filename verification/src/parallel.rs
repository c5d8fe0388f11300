//! The validator that spreads the indices over a pool of workers.

use vstd::prelude::*;
use rayon::iter::{IntoParallelIterator, ParallelIterator};
use crate::pattern::{conforms, PatternConfig};

verus! {

/// Calls rayon's `ParallelIterator::all` on the parallel iterator over the
/// range `0..n`. The claim is what rayon documents of `all`: it returns `true`
/// when the predicate was run on every item and held of each, and `false`
/// when the predicate was seen to fail on some item. Which items are run
/// after a failure, and in what order, is left open.
#[verifier::external_body]
fn par_all_indices<P: Fn(usize) -> bool + Sync + Send>(n: usize, predicate: P) -> (ok: bool)
    requires
        forall|i: usize| i < n ==> call_requires(predicate, (i,)),
    ensures
        ok ==> forall|i: usize| i < n ==> call_ensures(predicate, (i,), true),
        !ok ==> exists|i: usize| i < n && call_ensures(predicate, (i,), false),
{
    (0..n).into_par_iter().all(predicate)
}

/// Validates `arr` with every index as a work item of its own, run by the
/// workers of the current pool. The workers only read the array; the answer
/// does not depend on which of them finds a wrong element first.
pub fn validate_array_parallel(arr: &[i16], cfg: &PatternConfig) -> (ok: bool)
    requires
        cfg.wf(),
        arr@.len() == cfg.len,
    ensures
        ok == conforms(arr@, *cfg),
{
    let n: usize = arr.len();
    let element_ok = |i: usize| -> (hit: bool)
        requires
            i < n,
        ensures
            hit == (arr@[i as int] == cfg.expected(i as int)),
        { cfg.matches_at(arr[i], i) };
    let ok: bool = par_all_indices(n, element_ok);
    proof {
        if ok {
            assert forall|j: int| 0 <= j < n implies #[trigger] arr@[j] == cfg.expected(j) by {
                assert(call_ensures(element_ok, (j as usize,), true));
            }
        } else {
            let j = choose|j: usize| j < n && call_ensures(element_ok, (j,), false);
            assert(arr@[j as int] != cfg.expected(j as int));
        }
    }
    ok
}

} // verus!
