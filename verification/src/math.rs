//! Geometry for the game: points, sizes, and the axis-aligned square
//! intersection test used to decide ball/goal contact.
//!
//! A square is given by its top-left corner and a non-negative side length;
//! its region is closed on all sides, so two squares whose edges exactly
//! touch count as intersecting.

use vstd::prelude::*;

verus! {

/// An integer (x, y) coordinate in display pixel space.
#[derive(Clone, Copy, Debug, PartialEq, Eq, Structural)]
pub struct Point {
    pub x: i32,
    pub y: i32,
}

impl Point {
    /// Return the point (x, y).
    pub fn new(x: i32, y: i32) -> (p: Point)
        ensures
            p.x == x,
            p.y == y,
    {
        Point { x, y }
    }
}

/// The width and height of a rectangle on the display.
#[derive(Clone, Copy, Debug, PartialEq, Eq, Structural)]
pub struct Size {
    pub width: u32,
    pub height: u32,
}

impl Size {
    /// Return the size width x height.
    pub fn new(width: u32, height: u32) -> (s: Size)
        ensures
            s.width == width,
            s.height == height,
    {
        Size { width, height }
    }
}

/// The value `x` lies in the closed interval `[min, max]`.
pub open spec fn spec_contains1d(x: int, min: int, max: int) -> bool {
    min <= x && x <= max
}

/// The closed intervals `[min1, max1]` and `[min2, max2]` overlap: one of
/// the four interval bounds lies inside the other interval. For non-empty
/// intervals this holds exactly when the intervals share a point, full
/// containment of one interval in the other included.
pub open spec fn spec_intersects1d(min1: int, max1: int, min2: int, max2: int) -> bool {
    ||| spec_contains1d(min1, min2, max2)
    ||| spec_contains1d(max1, min2, max2)
    ||| spec_contains1d(min2, min1, max1)
    ||| spec_contains1d(max2, min1, max1)
}

/// The closed square with top-left corner (x1, y1) and side `size1`
/// intersects the closed square with top-left corner (x2, y2) and side
/// `size2`: both axis projections, each the closed interval from the
/// corner to corner plus side, overlap.
pub open spec fn spec_intersects(
    x1: int,
    y1: int,
    size1: int,
    x2: int,
    y2: int,
    size2: int,
) -> bool {
    &&& spec_intersects1d(x1, x1 + size1, x2, x2 + size2)
    &&& spec_intersects1d(y1, y1 + size1, y2, y2 + size2)
}

/// Return true if `x` lies in the closed interval `[min, max]`.
pub fn contains1d(x: i64, min: i64, max: i64) -> (r: bool)
    ensures
        r == spec_contains1d(x as int, min as int, max as int),
{
    x >= min && x <= max
}

/// Return true if the closed intervals `[min1, max1]` and `[min2, max2]`
/// overlap.
pub fn intersects1d(min1: i64, max1: i64, min2: i64, max2: i64) -> (r: bool)
    ensures
        r == spec_intersects1d(min1 as int, max1 as int, min2 as int, max2 as int),
{
    contains1d(min1, min2, max2) || contains1d(max1, min2, max2) || contains1d(min2, min1, max1)
        || contains1d(max2, min1, max1)
}

/// Return true if the closed square at `top_left1` with side `size1`
/// intersects the closed square at `top_left2` with side `size2`.
/// Total over all inputs: the axis sums are taken in 64 bits, so no
/// coordinate/size combination overflows.
pub fn intersects(top_left1: Point, size1: u32, top_left2: Point, size2: u32) -> (r: bool)
    ensures
        r == spec_intersects(
            top_left1.x as int,
            top_left1.y as int,
            size1 as int,
            top_left2.x as int,
            top_left2.y as int,
            size2 as int,
        ),
{
    let s1: i64 = size1 as i64;
    let s2: i64 = size2 as i64;
    intersects1d(
        top_left1.x as i64,
        top_left1.x as i64 + s1,
        top_left2.x as i64,
        top_left2.x as i64 + s2,
    ) && intersects1d(
        top_left1.y as i64,
        top_left1.y as i64 + s1,
        top_left2.y as i64,
        top_left2.y as i64 + s2,
    )
}

/// Law: interval overlap is symmetric in its two intervals.
pub proof fn lemma_intersects1d_symmetric(min1: int, max1: int, min2: int, max2: int)
    ensures
        spec_intersects1d(min1, max1, min2, max2) == spec_intersects1d(min2, max2, min1, max1),
{
}

/// Law: square intersection is symmetric in its two squares.
pub proof fn lemma_intersects_symmetric(
    x1: int,
    y1: int,
    size1: int,
    x2: int,
    y2: int,
    size2: int,
)
    ensures
        spec_intersects(x1, y1, size1, x2, y2, size2) == spec_intersects(
            x2,
            y2,
            size2,
            x1,
            y1,
            size1,
        ),
{
}

/// Law: for non-empty closed intervals the four-way bound-containment test
/// agrees with the direct overlap condition, so intervals that merely touch
/// at an endpoint overlap, and intervals one apart do not.
pub proof fn lemma_intersects1d_closed_bounds(min1: int, max1: int, min2: int, max2: int)
    requires
        min1 <= max1,
        min2 <= max2,
    ensures
        spec_intersects1d(min1, max1, min2, max2) == (min1 <= max2 && min2 <= max1),
{
}

} // verus!
