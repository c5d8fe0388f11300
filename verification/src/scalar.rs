//! The element-wise validators.

use vstd::prelude::*;
use crate::pattern::{conforms, PatternConfig};
use crate::table::ZoneTable;

verus! {

/// Validates `arr` one element at a time, asking the oracle at each index and
/// stopping at the first element that differs. Every other validator is
/// measured against this one.
pub fn validate_array(arr: &[i16], cfg: &PatternConfig) -> (ok: bool)
    requires
        cfg.wf(),
        arr@.len() == cfg.len,
    ensures
        ok == conforms(arr@, *cfg),
{
    let n: usize = arr.len();
    let mut i: usize = 0;
    while i < n
        invariant
            cfg.wf(),
            n == arr@.len(),
            i <= n,
            forall|j: int| 0 <= j < i ==> #[trigger] arr@[j] == cfg.expected(j),
        decreases n - i,
    {
        let r: usize = i % cfg.period;
        let flag: bool = if r < cfg.k1 {
            arr[i] == 1
        } else if r < cfg.k2 {
            arr[i] == -1
        } else {
            arr[i] == 0
        };
        if !flag {
            proof {
                assert(arr@[i as int] != cfg.expected(i as int));
            }
            return false;
        }
        i += 1;
    }
    true
}

/// Validates `arr` one element at a time without branching on the zone: the
/// expected value is read from a table by the cell of the index.
pub fn validate_array_branch_free(arr: &[i16], cfg: &PatternConfig) -> (ok: bool)
    requires
        cfg.zone_table_applies(),
        arr@.len() == cfg.len,
    ensures
        ok == conforms(arr@, *cfg),
{
    let lookup = ZoneTable::build(cfg);
    let n: usize = arr.len();
    let mut i: usize = 0;
    while i < n
        invariant
            lookup.wf(),
            lookup.cfg == *cfg,
            n == arr@.len(),
            i <= n,
            forall|j: int| 0 <= j < i ==> #[trigger] arr@[j] == cfg.expected(j),
        decreases n - i,
    {
        let expected: i16 = lookup.lookup(i);
        if arr[i] != expected {
            proof {
                assert(arr@[i as int] != cfg.expected(i as int));
            }
            return false;
        }
        i += 1;
    }
    true
}

} // verus!
