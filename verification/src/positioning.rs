//! Plain integer geometry: points, sizes and rectangles in desktop pixel
//! coordinates.

use vstd::prelude::*;

verus! {

/// Coordinates and sizes are kept well inside these bounds so that every
/// computation over them fits comfortably in `i64`.
pub const COORD_LIMIT: i64 = 0x10_0000;

pub const SIZE_LIMIT: i64 = 0xFFF;

/// A point in desktop coordinates.
#[derive(Clone, Copy, Debug, PartialEq, Eq, Structural)]
pub struct Pos {
    pub x: i64,
    pub y: i64,
}

/// A width/height pair in pixels.
#[derive(Clone, Copy, Debug, PartialEq, Eq, Structural)]
pub struct Size {
    pub width: i64,
    pub height: i64,
}

/// An axis-aligned rectangle: its top-left corner and its size.
#[derive(Clone, Copy, Debug, PartialEq, Eq, Structural)]
pub struct Rect {
    pub left: i64,
    pub top: i64,
    pub width: i64,
    pub height: i64,
}

impl Pos {
    pub open spec fn wf(self) -> bool {
        &&& -COORD_LIMIT <= self.x <= COORD_LIMIT
        &&& -COORD_LIMIT <= self.y <= COORD_LIMIT
    }
}

impl Size {
    pub open spec fn wf(self) -> bool {
        &&& 0 <= self.width <= SIZE_LIMIT
        &&& 0 <= self.height <= SIZE_LIMIT
    }
}

impl Rect {
    pub open spec fn wf(self) -> bool {
        &&& -COORD_LIMIT <= self.left <= COORD_LIMIT
        &&& -COORD_LIMIT <= self.top <= COORD_LIMIT
        &&& 0 <= self.width <= SIZE_LIMIT
        &&& 0 <= self.height <= SIZE_LIMIT
    }

    /// Still sane after one translation by a well-formed point: what a
    /// capture backend is willing to grab.
    pub open spec fn abs_wf(self) -> bool {
        &&& -2 * COORD_LIMIT <= self.left <= 2 * COORD_LIMIT
        &&& -2 * COORD_LIMIT <= self.top <= 2 * COORD_LIMIT
        &&& 0 <= self.width <= SIZE_LIMIT
        &&& 0 <= self.height <= SIZE_LIMIT
    }

    /// The same rectangle shifted by `origin`.
    pub fn translate(&self, origin: Pos) -> (r: Rect)
        requires
            self.wf(),
            origin.wf(),
        ensures
            r.left == self.left + origin.x,
            r.top == self.top + origin.y,
            r.width == self.width,
            r.height == self.height,
    {
        Rect { left: self.left + origin.x, top: self.top + origin.y, ..*self }
    }
}

} // verus!
