//! Screen-space rectangles as resolved from an OS bounds query.

use vstd::prelude::*;

verus! {

/// A window's outer or client-area bounds together with the derived extent.
///
/// The OS reports left/top/right/bottom corners; width and height are derived
/// as `right - left` and `bottom - top`. A rectangle is only ever constructed
/// with a strictly positive extent: a non-positive extent reported by the OS
/// is an inconsistency that the pipeline treats as a failed query.
#[derive(Clone, Copy, Debug)]
pub struct Rect {
    pub left: i32,
    pub top: i32,
    pub right: i32,
    pub bottom: i32,
    pub width: i32,
    pub height: i32,
}

impl Rect {
    /// The corners describe a non-degenerate rectangle whose extent fits the
    /// OS coordinate range.
    pub open spec fn bounds_valid(left: int, top: int, right: int, bottom: int) -> bool {
        0 < right - left <= i32::MAX && 0 < bottom - top <= i32::MAX
    }

    /// Width and height agree with the corners and are strictly positive.
    pub open spec fn wf(self) -> bool {
        &&& self.width == self.right - self.left
        &&& self.height == self.bottom - self.top
        &&& 0 < self.width
        &&& 0 < self.height
    }

    /// Derives the extent from queried corners. Returns `None` exactly when
    /// the corners are degenerate (non-positive extent) or inconsistent
    /// (extent beyond the coordinate range).
    pub fn from_bounds(left: i32, top: i32, right: i32, bottom: i32) -> (r: Option<Rect>)
        ensures
            r is Some <==> Self::bounds_valid(left as int, top as int, right as int, bottom as int),
            r matches Some(rect) ==> rect.left == left && rect.top == top
                && rect.right == right && rect.bottom == bottom && rect.wf(),
    {
        let w: i64 = right as i64 - left as i64;
        let h: i64 = bottom as i64 - top as i64;
        if 0 < w && w <= i32::MAX as i64 && 0 < h && h <= i32::MAX as i64 {
            Some(Rect { left, top, right, bottom, width: w as i32, height: h as i32 })
        } else {
            None
        }
    }
}

} // verus!
