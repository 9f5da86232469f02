//! Rectangles in output-layout space.
//!
//! A surface's placement box and an output's region are axis-aligned
//! rectangles in a shared coordinate space.  The render loop draws a
//! surface on an output exactly when the two overlap.

use vstd::prelude::*;

verus! {

/// An axis-aligned rectangle: origin plus size.
///
/// A rectangle with a non-positive width or height is empty and
/// overlaps nothing.
#[derive(Clone, Copy, PartialEq, Eq, Structural, Debug)]
pub struct Rect {
    pub x: i64,
    pub y: i64,
    pub width: i64,
    pub height: i64,
}

/// Two rectangles overlap when their interiors share at least one point.
pub open spec fn overlaps(a: Rect, b: Rect) -> bool {
    &&& a.x < b.x + b.width
    &&& b.x < a.x + a.width
    &&& a.y < b.y + b.height
    &&& b.y < a.y + a.height
}

impl Rect {
    /// Overlap test; edge-to-edge contact does not count, and an empty
    /// rectangle overlaps nothing.
    pub fn intersects(&self, other: &Rect) -> (r: bool)
        ensures
            r == overlaps(*self, *other),
    {
        let ax2: i128 = self.x as i128 + self.width as i128;
        let bx2: i128 = other.x as i128 + other.width as i128;
        let ay2: i128 = self.y as i128 + self.height as i128;
        let by2: i128 = other.y as i128 + other.height as i128;
        (self.x as i128) < bx2 && (other.x as i128) < ax2
            && (self.y as i128) < by2 && (other.y as i128) < ay2
    }
}

} // verus!
