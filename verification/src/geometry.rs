//! World-space points, rectangle extents, and the strict hit test that hover
//! detection uses.

use vstd::prelude::*;

verus! {

/// A point in world space. Coordinates are whole world units.
#[derive(Clone, Copy, PartialEq, Eq, Structural, Debug)]
pub struct Point {
    pub x: i64,
    pub y: i64,
}

/// Width and height of an axis-aligned rectangle.
#[derive(Clone, Copy, PartialEq, Eq, Structural, Debug)]
pub struct Size {
    pub width: i64,
    pub height: i64,
}

/// The origin, `(0, 0)`.
pub open spec fn origin() -> Point {
    Point { x: 0, y: 0 }
}

/// Whether `p` lies strictly inside the axis-aligned rectangle of extents
/// `size` centered at `center`: `|p.x - center.x| < size.width / 2` and
/// `|p.y - center.y| < size.height / 2`, with the halves taken exactly
/// (both sides are doubled, so odd extents lose nothing).
pub open spec fn in_box(p: Point, center: Point, size: Size) -> bool {
    &&& 2 * (p.x - center.x) < size.width
    &&& 2 * (center.x - p.x) < size.width
    &&& 2 * (p.y - center.y) < size.height
    &&& 2 * (center.y - p.y) < size.height
}

/// Strict hit test against the rectangle of extents `size` centered at
/// `center`. Differences are widened before doubling, so no input overflows.
pub fn hit_test(p: Point, center: Point, size: Size) -> (r: bool)
    ensures
        r == in_box(p, center, size),
{
    let dx_pos: i128 = p.x as i128 - center.x as i128;
    let dx_neg: i128 = center.x as i128 - p.x as i128;
    let dy_pos: i128 = p.y as i128 - center.y as i128;
    let dy_neg: i128 = center.y as i128 - p.y as i128;
    let w: i128 = size.width as i128;
    let h: i128 = size.height as i128;
    2 * dx_pos < w && 2 * dx_neg < w && 2 * dy_pos < h && 2 * dy_neg < h
}

} // verus!
