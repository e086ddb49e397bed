//! Screen rectangles in signed pixel coordinates.

use vstd::prelude::*;

verus! {

/// A rectangle in screen coordinates: `left..right` by `top..bottom`.
#[derive(Clone, Copy, Debug, PartialEq, Eq, Structural)]
pub struct Rect {
    pub left: i32,
    pub top: i32,
    pub right: i32,
    pub bottom: i32,
}

/// `right - left`, or `0` when `right < left`, as an unsigned size.
pub open spec fn spec_width(r: Rect) -> u32 {
    if r.left > r.right {
        0u32
    } else {
        (r.right - r.left) as u32
    }
}

/// `bottom - top`, or `0` when `bottom < top`, as an unsigned size.
pub open spec fn spec_height(r: Rect) -> u32 {
    if r.top > r.bottom {
        0u32
    } else {
        (r.bottom - r.top) as u32
    }
}

impl Rect {
    /// Build a rectangle from `(left, top) .. (right, bottom)`.
    pub fn new(left: i32, top: i32, right: i32, bottom: i32) -> (r: Rect)
        ensures
            r == (Rect { left, top, right, bottom }),
    {
        Rect { left, top, right, bottom }
    }

    /// Build a rectangle from an x range and a y range.
    pub fn from_ranges(x_start: i32, x_end: i32, y_start: i32, y_end: i32) -> (r: Rect)
        ensures
            r == (Rect { left: x_start, top: y_start, right: x_end, bottom: y_end }),
    {
        Rect { left: x_start, top: y_start, right: x_end, bottom: y_end }
    }

    /// The width of the rectangle; `0` when the x range is reversed.
    pub fn width(&self) -> (r: u32)
        ensures
            r == spec_width(*self),
    {
        if self.left > self.right {
            0
        } else {
            let w: i64 = (self.right as i64) - (self.left as i64);
            #[verifier::truncate]
            let r: u32 = w as u32;
            r
        }
    }

    /// The height of the rectangle; `0` when the y range is reversed.
    pub fn height(&self) -> (r: u32)
        ensures
            r == spec_height(*self),
    {
        if self.top > self.bottom {
            0
        } else {
            let h: i64 = (self.bottom as i64) - (self.top as i64);
            #[verifier::truncate]
            let r: u32 = h as u32;
            r
        }
    }

    /// The size of the rectangle, as `(width, height)`.
    pub fn size(&self) -> (r: (u32, u32))
        ensures
            r.0 == spec_width(*self),
            r.1 == spec_height(*self),
    {
        (self.width(), self.height())
    }

    /// The center point, `((left + right) / 2, (top + bottom) / 2)`, with the
    /// averages taken without overflow and rounded toward zero.
    pub fn center(&self) -> (r: (i32, i32))
        ensures
            r.0 == spec_avg(self.left as int, self.right as int),
            r.1 == spec_avg(self.top as int, self.bottom as int),
    {
        (avg(self.left, self.right), avg(self.top, self.bottom))
    }

    /// `left .. right`.
    pub fn xrange(&self) -> (r: (i32, i32))
        ensures
            r == (self.left, self.right),
    {
        (self.left, self.right)
    }

    /// `top .. bottom`.
    pub fn yrange(&self) -> (r: (i32, i32))
        ensures
            r == (self.top, self.bottom),
    {
        (self.top, self.bottom)
    }
}

/// The average of two coordinates, rounded toward zero as the platform's
/// integer division rounds.
pub open spec fn spec_avg(a: int, b: int) -> int {
    if a + b >= 0 {
        (a + b) / 2
    } else {
        -((-(a + b)) / 2)
    }
}

/// The average of two coordinates, computed in a wider type so that it cannot
/// overflow.
fn avg(a: i32, b: i32) -> (r: i32)
    ensures
        r == spec_avg(a as int, b as int),
{
    let wide: i64 = (a as i64) + (b as i64);
    let half: i64 = wide / 2;
    #[verifier::truncate]
    let r: i32 = half as i32;
    proof {
        assert(-0x8000_0000i64 * 2 <= wide <= 0x7fff_ffffi64 * 2);
        assert(-0x8000_0000i64 <= half <= 0x7fff_ffffi64);
    }
    r
}

} // verus!
