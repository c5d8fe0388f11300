//! Lane groups and how they cover an array.
//!
//! A lane-based validator never looks at single elements. It is right because
//! its groups, taken together, reach every index exactly as the element-wise
//! scan does. The lemmas here state that for both ways of forming groups.

use vstd::prelude::*;
use crate::lane::{contiguous_lane, strided_lane};
use crate::pattern::{conforms, lemma_expected_periodic, PatternConfig};

verus! {

/// The group of `width` consecutive elements number `group` holds what the
/// oracle expects.
pub open spec fn contiguous_group_ok(
    arr: Seq<i16>,
    cfg: PatternConfig,
    group: int,
    width: int,
) -> bool {
    contiguous_lane(arr, group * width, width) == cfg.expected_lane(group * width, width)
}

/// The group gathered at `step`, one element from each segment of length
/// `stride`, holds what the oracle expects.
pub open spec fn strided_group_ok(
    arr: Seq<i16>,
    cfg: PatternConfig,
    step: int,
    stride: int,
    width: int,
) -> bool {
    strided_lane(arr, step, stride, width) == cfg.expected_strided_lane(step, stride, width)
}

/// An array cut into consecutive groups conforms when every group is right.
pub proof fn lemma_contiguous_groups_cover(arr: Seq<i16>, cfg: PatternConfig, width: int)
    requires
        0 < width,
        arr.len() % (width as nat) == 0,
        forall|g: int|
            0 <= g < arr.len() / (width as nat) ==> #[trigger] contiguous_group_ok(
                arr,
                cfg,
                g,
                width,
            ),
    ensures
        conforms(arr, cfg),
{
    let n = arr.len() as int;
    assert forall|i: int| 0 <= i < n implies #[trigger] arr[i] == cfg.expected(i) by {
        let g = i / width;
        let l = i % width;
        vstd::arithmetic::div_mod::lemma_fundamental_div_mod(i, width);
        vstd::arithmetic::div_mod::lemma_fundamental_div_mod(n, width);
        assert(0 <= g < n / width && 0 <= l < width && i == g * width + l) by (nonlinear_arith)
            requires
                0 <= i < n,
                0 < width,
                n % width == 0,
                g == i / width,
                l == i % width,
                i == width * (i / width) + (i % width),
                n == width * (n / width) + (n % width),
        ;
        assert(contiguous_group_ok(arr, cfg, g, width));
        assert(contiguous_lane(arr, g * width, width)[l] == arr[g * width + l]);
        assert(cfg.expected_lane(g * width, width)[l] == cfg.expected(g * width + l));
    }
}

/// One wrong group of consecutive elements is enough for the array not to
/// conform.
pub proof fn lemma_contiguous_group_mismatch(
    arr: Seq<i16>,
    cfg: PatternConfig,
    group: int,
    width: int,
)
    requires
        0 < width,
        0 <= group,
        (group + 1) * width <= arr.len(),
        !contiguous_group_ok(arr, cfg, group, width),
    ensures
        !conforms(arr, cfg),
{
    if conforms(arr, cfg) {
        let a = contiguous_lane(arr, group * width, width);
        let e = cfg.expected_lane(group * width, width);
        assert forall|l: int| 0 <= l < width implies a[l] == e[l] by {
            assert(0 <= group * width + l < arr.len()) by (nonlinear_arith)
                requires
                    0 < width,
                    0 <= group,
                    0 <= l < width,
                    (group + 1) * width <= arr.len(),
            ;
            assert(arr[group * width + l] == cfg.expected(group * width + l));
        }
        assert(a =~= e);
    }
}

/// An array cut into `width` segments of length `stride` conforms when every
/// strided group is right.
pub proof fn lemma_strided_groups_cover(
    arr: Seq<i16>,
    cfg: PatternConfig,
    stride: int,
    width: int,
)
    requires
        0 < width,
        0 <= stride,
        arr.len() == width * stride,
        forall|s: int| 0 <= s < stride ==> #[trigger] strided_group_ok(arr, cfg, s, stride, width),
    ensures
        conforms(arr, cfg),
{
    let n = arr.len() as int;
    assert forall|i: int| 0 <= i < n implies #[trigger] arr[i] == cfg.expected(i) by {
        assert(0 < stride) by (nonlinear_arith)
            requires
                0 <= stride,
                0 <= i < width * stride,
        ;
        let l = i / stride;
        let s = i % stride;
        vstd::arithmetic::div_mod::lemma_fundamental_div_mod(i, stride);
        assert(0 <= l < width && 0 <= s < stride && i == s + l * stride) by (nonlinear_arith)
            requires
                0 <= i < width * stride,
                0 < stride,
                l == i / stride,
                s == i % stride,
                i == stride * (i / stride) + (i % stride),
        ;
        assert(strided_group_ok(arr, cfg, s, stride, width));
        assert(strided_lane(arr, s, stride, width)[l] == arr[s + l * stride]);
        assert(cfg.expected_strided_lane(s, stride, width)[l] == cfg.expected(s + l * stride));
    }
}

/// One wrong strided group is enough for the array not to conform.
pub proof fn lemma_strided_group_mismatch(
    arr: Seq<i16>,
    cfg: PatternConfig,
    step: int,
    stride: int,
    width: int,
)
    requires
        0 < width,
        0 <= step < stride,
        arr.len() == width * stride,
        !strided_group_ok(arr, cfg, step, stride, width),
    ensures
        !conforms(arr, cfg),
{
    if conforms(arr, cfg) {
        let a = strided_lane(arr, step, stride, width);
        let e = cfg.expected_strided_lane(step, stride, width);
        assert forall|l: int| 0 <= l < width implies a[l] == e[l] by {
            assert(0 <= step + l * stride < width * stride) by (nonlinear_arith)
                requires
                    0 <= step < stride,
                    0 <= l < width,
            ;
            assert(arr[step + l * stride] == cfg.expected(step + l * stride));
        }
        assert(a =~= e);
    }
}

/// Where the segment length is a whole number of cycles, every position of a
/// strided group expects the same value: the one expected at the step itself.
pub proof fn lemma_strided_lane_uniform(cfg: PatternConfig, step: int, stride: int, width: int)
    requires
        cfg.wf(),
        0 <= width,
        0 <= stride,
        stride % (cfg.period as int) == 0,
    ensures
        cfg.expected_strided_lane(step, stride, width) == Seq::new(
            width as nat,
            |l: int| cfg.expected(step),
        ),
{
    let p = cfg.period as int;
    let c = stride / p;
    vstd::arithmetic::div_mod::lemma_fundamental_div_mod(stride, p);
    let lane = cfg.expected_strided_lane(step, stride, width);
    assert forall|l: int| 0 <= l < width implies #[trigger] lane[l] == cfg.expected(step) by {
        assert(l * stride == (l * c) * p) by (nonlinear_arith)
            requires
                stride == p * c,
        ;
        lemma_expected_periodic(cfg, step, l * c);
    }
    assert(lane =~= Seq::new(width as nat, |l: int| cfg.expected(step)));
}

} // verus!
