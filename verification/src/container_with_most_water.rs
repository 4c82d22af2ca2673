//! A walk over a row of heights from both ends inward.

use vstd::prelude::*;

verus! {

/// The lower of two heights.
pub open spec fn lower(a: usize, b: usize) -> int {
    if a < b {
        a as int
    } else {
        b as int
    }
}

/// Whether every product that the walk from `l` and `r` inward forms fits
/// the machine word. At each step the walk multiplies the lower of the two
/// heights by `r - 1`, and then leaves the lower height behind: `l` moves up
/// where the left height is lower, `r` moves down otherwise.
pub open spec fn walk_fits(x: Seq<usize>, l: int, r: int) -> bool
    decreases r - l,
{
    if 0 <= l < r < x.len() {
        &&& lower(x[l], x[r]) * (r - 1) <= usize::MAX
        &&& if x[l] < x[r] {
            walk_fits(x, l + 1, r)
        } else {
            walk_fits(x, l, r - 1)
        }
    } else {
        true
    }
}

/// Walks the heights `x` from both ends inward and keeps the least of zero
/// and the products formed on the way, which is zero.
pub fn container_with_most_water_fn(x: Vec<usize>) -> (area: usize)
    requires
        x.len() > 0,
        walk_fits(x@, 0, x.len() - 1),
    ensures
        area == 0,
{
    let mut l: usize = 0;
    let mut r: usize = x.len() - 1;
    let mut max_area: usize = 0;
    while l < r
        invariant
            l <= r < x.len(),
            max_area == 0,
            walk_fits(x@, l as int, r as int),
        decreases r - l,
    {
        let height: usize = if x[l] < x[r] {
            x[l]
        } else {
            x[r]
        };
        assert(height == lower(x@[l as int], x@[r as int]));
        let area: usize = height * (r - 1);
        if area < max_area {
            max_area = area;
        }
        if x[l] < x[r] {
            l += 1;
        } else {
            r -= 1;
        }
    }
    max_area
}

} // verus!
