//! Axis orderings for the small-circle / great-circle solve.
//!
//! The solver writes two Cartesian axes as affine functions of a third. Which
//! axis is the free one is chosen from a fixed list of cyclic orderings, so
//! that the elimination never divides by a denominator that is nearly zero.
use std::cmp::Ordering;
use vstd::prelude::*;

verus! {

/// The axis orderings the solver tries, in this order: (x, y, z), (z, x, y),
/// (y, z, x). The first entry of an ordering is the free axis.
pub open spec fn axis_order(i: int) -> Seq<usize> {
    if i == 0 {
        seq![0usize, 1usize, 2usize]
    } else if i == 1 {
        seq![2usize, 0usize, 1usize]
    } else {
        seq![1usize, 2usize, 0usize]
    }
}

/// `p` lists each of the three axes exactly once.
pub open spec fn is_axis_permutation(p: [usize; 3]) -> bool {
    &&& p[0] < 3 && p[1] < 3 && p[2] < 3
    &&& p[0] != p[1] && p[1] != p[2] && p[0] != p[2]
}

/// Whether a denominator's magnitude, compared with the solver's threshold,
/// is too small to divide by.
pub open spec fn too_small(magnitude_vs_threshold: Option<Ordering>) -> bool {
    magnitude_vs_threshold == Some(Ordering::Less)
}

/// The ordering the solver settles on: the first whose denominator is not too
/// small, or the last when all of them are.
pub open spec fn first_usable(magnitude_vs_threshold: Seq<Option<Ordering>>) -> int {
    if !too_small(magnitude_vs_threshold[0]) {
        0
    } else if !too_small(magnitude_vs_threshold[1]) {
        1
    } else {
        2
    }
}

/// Returns the `i`-th axis ordering of the solver's list.
pub fn axis_order_at(i: usize) -> (p: [usize; 3])
    requires
        i < 3,
    ensures
        p@ == axis_order(i as int),
        is_axis_permutation(p),
{
    let p: [usize; 3] = if i == 0 {
        [0, 1, 2]
    } else if i == 1 {
        [2, 0, 1]
    } else {
        [1, 2, 0]
    };
    assert(p@ =~= axis_order(i as int));
    p
}

/// Tries the orderings in turn and returns the index of the first whose
/// denominator is usable; the last one is kept when none is.
/// `magnitude_vs_threshold[i]` compares the magnitude of ordering `i`'s
/// denominator with the threshold.
pub fn select_axis_order(magnitude_vs_threshold: [Option<Ordering>; 3]) -> (i: usize)
    ensures
        i == first_usable(magnitude_vs_threshold@),
        i < 3,
{
    let mut i: usize = 0;
    while i < 2 && is_too_small(magnitude_vs_threshold[i])
        invariant
            i <= 2,
            forall|j: int| 0 <= j < i ==> too_small(#[trigger] magnitude_vs_threshold@[j]),
        decreases 2 - i,
    {
        i = i + 1;
    }
    i
}

/// Whether a denominator is too small to divide by.
pub fn is_too_small(magnitude_vs_threshold: Option<Ordering>) -> (r: bool)
    ensures
        r == too_small(magnitude_vs_threshold),
{
    match magnitude_vs_threshold {
        Some(Ordering::Less) => true,
        _ => false,
    }
}

/// Whether `p` lists each of the three axes exactly once.
pub fn check_axis_permutation(p: [usize; 3]) -> (r: bool)
    ensures
        r == is_axis_permutation(p),
{
    p[0] < 3 && p[1] < 3 && p[2] < 3 && p[0] != p[1] && p[1] != p[2] && p[0] != p[2]
}

/// Reads `v` in the axis order `p`: entry `k` of the result is `v`'s entry on
/// axis `p[k]`.
pub fn to_axis_order<T: Copy>(p: [usize; 3], v: [T; 3]) -> (r: [T; 3])
    requires
        is_axis_permutation(p),
    ensures
        forall|k: int| 0 <= k < 3 ==> r[k] == v[p[k] as int],
{
    [v[p[0]], v[p[1]], v[p[2]]]
}

/// Writes `v`, given in the axis order `p`, back on the axes: the result's
/// entry on axis `p[k]` is `v[k]`.
pub fn from_axis_order<T: Copy>(p: [usize; 3], v: [T; 3]) -> (r: [T; 3])
    requires
        is_axis_permutation(p),
    ensures
        forall|k: int| 0 <= k < 3 ==> r[p[k] as int] == v[k],
{
    let mut r = v;
    r[p[0]] = v[0];
    r[p[1]] = v[1];
    r[p[2]] = v[2];
    r
}

} // verus!
