//! Lanes: fixed-width groups of elements that are compared as one unit.

use vstd::prelude::*;

verus! {

/// The lane of `width` consecutive elements of `arr` that begins at `start`.
pub open spec fn contiguous_lane(arr: Seq<i16>, start: int, width: int) -> Seq<i16> {
    Seq::new(width as nat, |l: int| arr[start + l])
}

/// The lane whose position `l` is the element of `arr` at `start + l * stride`.
pub open spec fn strided_lane(arr: Seq<i16>, start: int, stride: int, width: int) -> Seq<i16> {
    Seq::new(width as nat, |l: int| arr[start + l * stride])
}

/// A lane that holds `value` in every position.
pub fn splat<const W: usize>(value: i16) -> (lane: [i16; W])
    ensures
        lane@ == Seq::new(W as nat, |l: int| value),
{
    let lane: [i16; W] = [value; W];
    proof {
        assert(lane@ =~= Seq::new(W as nat, |l: int| value));
    }
    lane
}

/// Gathers one element from each of `W` segments of `arr`: position `l` of the
/// lane is the element at `start + l * stride`.
pub fn gather_strided<const W: usize>(arr: &[i16], start: usize, stride: usize) -> (lane: [i16; W])
    requires
        start < stride,
        W * stride <= arr@.len(),
    ensures
        lane@ == strided_lane(arr@, start as int, stride as int, W as int),
{
    let n: usize = arr.len();
    let mut lane: [i16; W] = [0i16; W];
    let mut l: usize = 0;
    while l < W
        invariant
            l <= W,
            start < stride,
            W * stride <= n,
            n == arr@.len(),
            forall|m: int| 0 <= m < l ==> lane@[m] == arr@[start + m * stride],
        decreases W - l,
    {
        proof {
            assert(0 <= l * stride && start + l * stride < W * stride) by (nonlinear_arith)
                requires
                    0 <= l < W,
                    0 <= start < stride,
            ;
        }
        lane[l] = arr[start + l * stride];
        l += 1;
    }
    proof {
        assert(lane@ =~= strided_lane(arr@, start as int, stride as int, W as int));
    }
    lane
}

/// Takes the `W` elements of `arr` that begin at `start`, in memory order.
pub fn load_contiguous<const W: usize>(arr: &[i16], start: usize) -> (lane: [i16; W])
    requires
        start + W <= arr@.len(),
    ensures
        lane@ == contiguous_lane(arr@, start as int, W as int),
{
    let n: usize = arr.len();
    let mut lane: [i16; W] = [0i16; W];
    let mut l: usize = 0;
    while l < W
        invariant
            l <= W,
            start + W <= n,
            n == arr@.len(),
            forall|m: int| 0 <= m < l ==> lane@[m] == arr@[start + m],
        decreases W - l,
    {
        lane[l] = arr[start + l];
        l += 1;
    }
    proof {
        assert(lane@ =~= contiguous_lane(arr@, start as int, W as int));
    }
    lane
}

/// Lane-wise equality: every position is compared, and the lanes are equal
/// when no position differs.
pub fn lanes_equal<const W: usize>(a: &[i16; W], b: &[i16; W]) -> (eq: bool)
    ensures
        eq == (a@ == b@),
        eq == (forall|l: int| 0 <= l < W ==> a@[l] == b@[l]),
{
    let mut eq: bool = true;
    let mut l: usize = 0;
    while l < W
        invariant
            l <= W,
            eq == (forall|m: int| 0 <= m < l ==> a@[m] == b@[m]),
        decreases W - l,
    {
        if a[l] != b[l] {
            eq = false;
        }
        l += 1;
    }
    proof {
        assert(eq == (a@ =~= b@));
    }
    eq
}

} // verus!
