//! Rectangles in physical pixels.

use vstd::prelude::*;

verus! {

/// A pair of unsigned pixel counts: a position or a size.
#[derive(Clone, Copy, Debug, PartialEq, Eq, Structural)]
pub struct UVec2 {
    pub x: u32,
    pub y: u32,
}

impl UVec2 {
    /// The pair `(x, y)`.
    pub fn new(x: u32, y: u32) -> (v: UVec2)
        ensures
            v == (UVec2 { x, y }),
    {
        UVec2 { x, y }
    }
}

/// The rectangle of a render target into which a camera draws.
///
/// `physical_position` is the top-left corner, with `(0, 0)` the top-left
/// corner of the target; `physical_size` is the width and the height.
#[derive(Clone, Copy, Debug, PartialEq, Eq, Structural)]
pub struct Viewport {
    pub physical_position: UVec2,
    pub physical_size: UVec2,
}

impl Viewport {
    /// The first column to the right of the rectangle.
    pub open spec fn right(self) -> int {
        self.physical_position.x + self.physical_size.x
    }

    /// The first row below the rectangle.
    pub open spec fn bottom(self) -> int {
        self.physical_position.y + self.physical_size.y
    }

    /// Whether the pixel in column `x` and row `y` lies inside the rectangle.
    pub open spec fn contains(self, x: int, y: int) -> bool {
        &&& self.physical_position.x <= x < self.right()
        &&& self.physical_position.y <= y < self.bottom()
    }

    /// The number of pixels inside the rectangle.
    pub open spec fn area(self) -> int {
        self.physical_size.x * self.physical_size.y
    }

    /// Whether no pixel lies inside both rectangles.
    pub open spec fn disjoint(self, other: Viewport) -> bool {
        forall|x: int, y: int| !(#[trigger] self.contains(x, y) && other.contains(x, y))
    }
}

} // verus!
