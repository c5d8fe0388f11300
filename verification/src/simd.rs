//! The lane-based validators.

use vstd::prelude::*;
use crate::groups::{
    contiguous_group_ok, lemma_contiguous_group_mismatch, lemma_contiguous_groups_cover,
    lemma_strided_group_mismatch, lemma_strided_groups_cover, lemma_strided_lane_uniform,
    strided_group_ok,
};
use crate::lane::{gather_strided, lanes_equal, load_contiguous, splat};
use crate::pattern::{conforms, PatternConfig, LANES_NARROW, LANES_WIDE};
use crate::table::{LaneCache, LaneZoneTable, ZoneTable};

verus! {

/// Validates `arr` in narrow lanes of consecutive elements. The expected lane
/// of each group comes from a table that is built once and read by the
/// group's place within two cycles, so that groups that straddle a zone border
/// are compared with the mixed lane that belongs there.
pub fn validate_array_simd_cache(arr: &[i16], cfg: &PatternConfig) -> (ok: bool)
    requires
        cfg.lane_cache_applies(),
        arr@.len() == cfg.len,
    ensures
        ok == conforms(arr@, *cfg),
{
    let cache = LaneCache::build(cfg);
    let n: usize = arr.len();
    let mut i: usize = 0;
    while i < n
        invariant
            cache.wf(),
            cache.cfg == *cfg,
            n == arr@.len(),
            n % LANES_NARROW == 0,
            i % LANES_NARROW == 0,
            i <= n,
            forall|g: int|
                0 <= g < i / LANES_NARROW ==> #[trigger] contiguous_group_ok(
                    arr@,
                    *cfg,
                    g,
                    LANES_NARROW as int,
                ),
        decreases n - i,
    {
        let x: [i16; LANES_NARROW] = load_contiguous::<LANES_NARROW>(arr, i);
        let y: [i16; LANES_NARROW] = cache.lookup(i);
        if !lanes_equal(&x, &y) {
            proof {
                lemma_contiguous_group_mismatch(
                    arr@,
                    *cfg,
                    (i / LANES_NARROW) as int,
                    LANES_NARROW as int,
                );
            }
            return false;
        }
        proof {
            assert(contiguous_group_ok(
                arr@,
                *cfg,
                (i / LANES_NARROW) as int,
                LANES_NARROW as int,
            ));
        }
        i += LANES_NARROW;
    }
    proof {
        lemma_contiguous_groups_cover(arr@, *cfg, LANES_NARROW as int);
    }
    true
}

/// Validates `arr` in wide lanes, gathered with a stride of an eighth of the
/// array. The expected lane of each group is one of three constant lanes,
/// chosen by the zone of the step.
pub fn validate_array_simd_bigger(arr: &[i16], cfg: &PatternConfig) -> (ok: bool)
    requires
        cfg.strided_applies(LANES_WIDE as int),
        arr@.len() == cfg.len,
    ensures
        ok == conforms(arr@, *cfg),
{
    let a: [i16; LANES_WIDE] = splat::<LANES_WIDE>(1);
    let b: [i16; LANES_WIDE] = splat::<LANES_WIDE>(-1);
    let c: [i16; LANES_WIDE] = splat::<LANES_WIDE>(0);
    let stride: usize = arr.len() / LANES_WIDE;
    let mut i: usize = 0;
    while i < stride
        invariant
            cfg.strided_applies(LANES_WIDE as int),
            arr@.len() == cfg.len,
            arr@.len() == LANES_WIDE * stride,
            i <= stride,
            a@ == Seq::new(LANES_WIDE as nat, |l: int| 1i16),
            b@ == Seq::new(LANES_WIDE as nat, |l: int| -1i16),
            c@ == Seq::new(LANES_WIDE as nat, |l: int| 0i16),
            forall|s: int|
                0 <= s < i ==> #[trigger] strided_group_ok(
                    arr@,
                    *cfg,
                    s,
                    stride as int,
                    LANES_WIDE as int,
                ),
        decreases stride - i,
    {
        let x: [i16; LANES_WIDE] = gather_strided::<LANES_WIDE>(arr, i, stride);
        let r: usize = i % cfg.period;
        let should_equal: [i16; LANES_WIDE] = if r < cfg.k1 {
            a
        } else if r < cfg.k2 {
            b
        } else {
            c
        };
        proof {
            lemma_strided_lane_uniform(*cfg, i as int, stride as int, LANES_WIDE as int);
            assert(should_equal@ =~= cfg.expected_strided_lane(
                i as int,
                stride as int,
                LANES_WIDE as int,
            ));
        }
        if !lanes_equal(&x, &should_equal) {
            proof {
                lemma_strided_group_mismatch(
                    arr@,
                    *cfg,
                    i as int,
                    stride as int,
                    LANES_WIDE as int,
                );
            }
            return false;
        }
        i += 1;
    }
    proof {
        lemma_strided_groups_cover(arr@, *cfg, stride as int, LANES_WIDE as int);
    }
    true
}

/// Validates `arr` in narrow lanes, gathered with a stride of a quarter of the
/// array. The expected lane of each group is one of three constant lanes,
/// chosen by the zone of the step.
pub fn validate_array_simd(arr: &[i16], cfg: &PatternConfig) -> (ok: bool)
    requires
        cfg.strided_applies(LANES_NARROW as int),
        arr@.len() == cfg.len,
    ensures
        ok == conforms(arr@, *cfg),
{
    let a: [i16; LANES_NARROW] = splat::<LANES_NARROW>(1);
    let b: [i16; LANES_NARROW] = splat::<LANES_NARROW>(-1);
    let c: [i16; LANES_NARROW] = splat::<LANES_NARROW>(0);
    let stride: usize = arr.len() / LANES_NARROW;
    let mut i: usize = 0;
    while i < stride
        invariant
            cfg.strided_applies(LANES_NARROW as int),
            arr@.len() == cfg.len,
            arr@.len() == LANES_NARROW * stride,
            i <= stride,
            a@ == Seq::new(LANES_NARROW as nat, |l: int| 1i16),
            b@ == Seq::new(LANES_NARROW as nat, |l: int| -1i16),
            c@ == Seq::new(LANES_NARROW as nat, |l: int| 0i16),
            forall|s: int|
                0 <= s < i ==> #[trigger] strided_group_ok(
                    arr@,
                    *cfg,
                    s,
                    stride as int,
                    LANES_NARROW as int,
                ),
        decreases stride - i,
    {
        let x: [i16; LANES_NARROW] = gather_strided::<LANES_NARROW>(arr, i, stride);
        let r: usize = i % cfg.period;
        let should_equal: [i16; LANES_NARROW] = if r < cfg.k1 {
            a
        } else if r < cfg.k2 {
            b
        } else {
            c
        };
        proof {
            lemma_strided_lane_uniform(*cfg, i as int, stride as int, LANES_NARROW as int);
            assert(should_equal@ =~= cfg.expected_strided_lane(
                i as int,
                stride as int,
                LANES_NARROW as int,
            ));
        }
        if !lanes_equal(&x, &should_equal) {
            proof {
                lemma_strided_group_mismatch(
                    arr@,
                    *cfg,
                    i as int,
                    stride as int,
                    LANES_NARROW as int,
                );
            }
            return false;
        }
        i += 1;
    }
    proof {
        lemma_strided_groups_cover(arr@, *cfg, stride as int, LANES_NARROW as int);
    }
    true
}

/// Validates `arr` in narrow strided lanes without branching on the zone: the
/// expected lane of each group is read from a table of lanes by the cell of
/// the step.
pub fn validate_array_simd_branch_free_2(arr: &[i16], cfg: &PatternConfig) -> (ok: bool)
    requires
        cfg.strided_applies(LANES_NARROW as int),
        cfg.zone_table_applies(),
        arr@.len() == cfg.len,
    ensures
        ok == conforms(arr@, *cfg),
{
    let lookup = LaneZoneTable::build(cfg);
    let stride: usize = arr.len() / LANES_NARROW;
    let mut i: usize = 0;
    while i < stride
        invariant
            cfg.strided_applies(LANES_NARROW as int),
            lookup.wf(),
            lookup.zones.cfg == *cfg,
            arr@.len() == cfg.len,
            arr@.len() == LANES_NARROW * stride,
            i <= stride,
            forall|s: int|
                0 <= s < i ==> #[trigger] strided_group_ok(
                    arr@,
                    *cfg,
                    s,
                    stride as int,
                    LANES_NARROW as int,
                ),
        decreases stride - i,
    {
        let x: [i16; LANES_NARROW] = gather_strided::<LANES_NARROW>(arr, i, stride);
        let should_equal: [i16; LANES_NARROW] = lookup.lookup(i);
        proof {
            lemma_strided_lane_uniform(*cfg, i as int, stride as int, LANES_NARROW as int);
        }
        if !lanes_equal(&x, &should_equal) {
            proof {
                lemma_strided_group_mismatch(
                    arr@,
                    *cfg,
                    i as int,
                    stride as int,
                    LANES_NARROW as int,
                );
            }
            return false;
        }
        i += 1;
    }
    proof {
        lemma_strided_groups_cover(arr@, *cfg, stride as int, LANES_NARROW as int);
    }
    true
}

/// Validates `arr` in narrow strided lanes without branching on the zone: the
/// expected value of each group is read from a table of scalars by the cell
/// of the step, and broadcast into a lane.
pub fn validate_array_simd_branch_free_1(arr: &[i16], cfg: &PatternConfig) -> (ok: bool)
    requires
        cfg.strided_applies(LANES_NARROW as int),
        cfg.zone_table_applies(),
        arr@.len() == cfg.len,
    ensures
        ok == conforms(arr@, *cfg),
{
    let lookup = ZoneTable::build(cfg);
    let stride: usize = arr.len() / LANES_NARROW;
    let mut i: usize = 0;
    while i < stride
        invariant
            cfg.strided_applies(LANES_NARROW as int),
            lookup.wf(),
            lookup.cfg == *cfg,
            arr@.len() == cfg.len,
            arr@.len() == LANES_NARROW * stride,
            i <= stride,
            forall|s: int|
                0 <= s < i ==> #[trigger] strided_group_ok(
                    arr@,
                    *cfg,
                    s,
                    stride as int,
                    LANES_NARROW as int,
                ),
        decreases stride - i,
    {
        let x: [i16; LANES_NARROW] = gather_strided::<LANES_NARROW>(arr, i, stride);
        let should_equal_val: i16 = lookup.lookup(i);
        let should_equal: [i16; LANES_NARROW] = splat::<LANES_NARROW>(should_equal_val);
        proof {
            lemma_strided_lane_uniform(*cfg, i as int, stride as int, LANES_NARROW as int);
        }
        if !lanes_equal(&x, &should_equal) {
            proof {
                lemma_strided_group_mismatch(
                    arr@,
                    *cfg,
                    i as int,
                    stride as int,
                    LANES_NARROW as int,
                );
            }
            return false;
        }
        i += 1;
    }
    proof {
        lemma_strided_groups_cover(arr@, *cfg, stride as int, LANES_NARROW as int);
    }
    true
}

} // verus!
