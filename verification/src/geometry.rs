//! Plain integer geometry passed between the crate and its callers:
//! points, sizes, rectangles and four-element scalars.

use vstd::prelude::*;

verus! {

/// A 4-element value widely used to pass per-channel pixel values.
#[derive(Clone, Copy, Debug, PartialEq, Eq, Structural)]
pub struct Scalar {
    v0: i32,
    v1: i32,
    v2: i32,
    v3: i32,
}

impl Scalar {
    /// The first component.
    pub closed spec fn spec_v0(self) -> i32 {
        self.v0
    }

    /// The second component.
    pub closed spec fn spec_v1(self) -> i32 {
        self.v1
    }

    /// The third component.
    pub closed spec fn spec_v2(self) -> i32 {
        self.v2
    }

    /// The fourth component.
    pub closed spec fn spec_v3(self) -> i32 {
        self.v3
    }

    /// Creates a new scalar holding the four components given.
    pub fn new(v0: i32, v1: i32, v2: i32, v3: i32) -> (r: Self)
        ensures
            r.spec_v0() == v0,
            r.spec_v1() == v1,
            r.spec_v2() == v2,
            r.spec_v3() == v3,
    {
        Scalar { v0, v1, v2, v3 }
    }
}

/// A 2D integer point specified by its coordinates `x` and `y`.
#[derive(Clone, Copy, Debug, PartialEq, Eq, Structural)]
pub struct Point2i {
    /// x coordinate
    pub x: i32,
    /// y coordinate
    pub y: i32,
}

/// The integral size (width and height) of an image or rectangle.
#[derive(Clone, Copy, Debug, PartialEq, Eq, Structural)]
pub struct Size2i {
    /// The width.
    pub width: i32,
    /// The height.
    pub height: i32,
}

impl Size2i {
    /// Initializes a size with the specified width and height.
    pub fn new(width: i32, height: i32) -> (r: Self)
        ensures
            r == (Size2i { width, height }),
    {
        Size2i { width, height }
    }
}

impl Default for Size2i {
    /// The zero size.
    fn default() -> (r: Self)
        ensures
            r == (Size2i { width: 0, height: 0 }),
    {
        Size2i { width: 0, height: 0 }
    }
}

/// A rectangle in integer coordinates: its left-top corner and its extent.
#[derive(Clone, Copy, Debug, PartialEq, Eq, Structural)]
pub struct Rect {
    /// x coordinate of the left-top corner
    pub x: i32,
    /// y coordinate of the left-top corner
    pub y: i32,
    /// width of this rectangle
    pub width: i32,
    /// height of this rectangle
    pub height: i32,
}

impl Rect {
    /// Creates a new rectangle from (x, y, width, height).
    pub fn new(x: i32, y: i32, width: i32, height: i32) -> (r: Self)
        ensures
            r == (Rect { x, y, width, height }),
    {
        Rect { x, y, width, height }
    }
}

impl Default for Rect {
    /// The empty rectangle at the origin.
    fn default() -> (r: Self)
        ensures
            r == (Rect { x: 0, y: 0, width: 0, height: 0 }),
    {
        Rect { x: 0, y: 0, width: 0, height: 0 }
    }
}

} // verus!
