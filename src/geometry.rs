//! Hit boxes in hundredths of a screen unit.
use vstd::prelude::*;

verus! {

/// A pointer position, in hundredths of a screen unit.
#[derive(Clone, Copy, Debug, PartialEq, Eq, Structural)]
pub struct Point {
    pub x: i64,
    pub y: i64,
}

/// Whether `p` lies in the closed box with top-left corner `(left, top)`,
/// width `w` and height `h`.
pub open spec fn in_box(left: i64, top: i64, w: i64, h: i64, p: Point) -> bool {
    left <= p.x && p.x <= left + w && top <= p.y && p.y <= top + h
}

/// Tests `p` against the closed box with top-left corner `(left, top)`.
pub fn box_contains(left: i64, top: i64, w: i64, h: i64, p: Point) -> (r: bool)
    ensures
        r == in_box(left, top, w, h, p),
{
    let right = left as i128 + w as i128;
    let bottom = top as i128 + h as i128;
    left <= p.x && (p.x as i128) <= right && top <= p.y && (p.y as i128) <= bottom
}

} // verus!
