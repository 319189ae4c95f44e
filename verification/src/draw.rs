//! Debug overlays: mark a capture position or a capture region on a frame,
//! so a saved screenshot shows where the scanner looked.

use vstd::prelude::*;
use crate::color::Rgb;
use crate::frame::Frame;
use crate::positioning::{Pos, Rect};

verus! {

/// Fill the half-open pixel box `[x0, x1) x [y0, y1)` with one color,
/// leaving every other pixel as it was.
fn fill_box(image: &mut Frame, x0: usize, x1: usize, y0: usize, y1: usize, c: Rgb)
    requires
        old(image).wf(),
        x0 <= x1 <= old(image).width,
        y0 <= y1 <= old(image).height,
    ensures
        final(image).wf(),
        final(image).width == old(image).width,
        final(image).height == old(image).height,
        forall|u: int, v: int|
            0 <= u < old(image).width && 0 <= v < old(image).height
                ==> #[trigger] final(image).spec_pixel(u, v) == (if x0 <= u < x1 && y0 <= v < y1 {
                c
            } else {
                old(image).spec_pixel(u, v)
            }),
{
    let mut y: usize = y0;
    while y < y1
        invariant
            image.wf(),
            image.width == old(image).width,
            image.height == old(image).height,
            x0 <= x1 <= image.width,
            y0 <= y <= y1 <= image.height,
            forall|u: int, v: int|
                0 <= u < image.width && 0 <= v < image.height ==> #[trigger] image.spec_pixel(u, v)
                    == (if x0 <= u < x1 && y0 <= v < y {
                    c
                } else {
                    old(image).spec_pixel(u, v)
                }),
        decreases y1 - y,
    {
        let mut x: usize = x0;
        while x < x1
            invariant
                image.wf(),
                image.width == old(image).width,
                image.height == old(image).height,
                x0 <= x1 <= image.width,
                y0 <= y < y1 <= image.height,
                x0 <= x <= x1,
                forall|u: int, v: int|
                    0 <= u < image.width && 0 <= v < image.height ==> #[trigger] image.spec_pixel(
                        u,
                        v,
                    ) == (if (x0 <= u < x1 && y0 <= v < y) || (x0 <= u < x && v == y) {
                        c
                    } else {
                        old(image).spec_pixel(u, v)
                    }),
            decreases x1 - x,
        {
            image.set_pixel(x, y, c);
            x = x + 1;
        }
        y = y + 1;
    }
}

/// Something that can mark where it sits on a captured frame.
pub trait DrawCaptureRegion {
    /// Does the marker fit inside the frame?
    spec fn can_draw(&self, image: Frame) -> bool;

    /// The pixels the marker covers.
    spec fn marks(&self, x: int, y: int) -> bool;

    /// The marker's color.
    spec fn mark_color(&self) -> Rgb;

    /// Paint the marker: exactly the marked pixels take the marker color,
    /// every other pixel keeps its value.
    fn draw_capture_region(&self, image: &mut Frame)
        requires
            old(image).wf(),
            self.can_draw(*old(image)),
        ensures
            final(image).wf(),
            final(image).width == old(image).width,
            final(image).height == old(image).height,
            forall|x: int, y: int|
                0 <= x < old(image).width && 0 <= y < old(image).height
                    ==> #[trigger] final(image).spec_pixel(x, y) == (if self.marks(x, y) {
                    self.mark_color()
                } else {
                    old(image).spec_pixel(x, y)
                }),
    ;
}

impl DrawCaptureRegion for Pos {
    /// The crosshair needs five pixels of room around its center.
    open spec fn can_draw(&self, image: Frame) -> bool {
        &&& 5 <= self.x && self.x + 5 < image.width
        &&& 5 <= self.y && self.y + 5 < image.height
    }

    /// A crosshair: a three-by-three block at the point, and the four edges
    /// of an eleven-pixel square around it.
    open spec fn marks(&self, x: int, y: int) -> bool {
        ||| (self.x - 1 <= x <= self.x + 1 && self.y - 1 <= y <= self.y + 1)
        ||| (self.x - 5 <= x <= self.x + 5 && (y == self.y - 5 || y == self.y + 5))
        ||| ((x == self.x - 5 || x == self.x + 5) && self.y - 5 <= y <= self.y + 5)
    }

    open spec fn mark_color(&self) -> Rgb {
        Rgb { r: 0, g: 0, b: 255 }
    }

    fn draw_capture_region(&self, image: &mut Frame) {
        let blue = Rgb { r: 0, g: 0, b: 255 };
        let x: usize = self.x as usize;
        let y: usize = self.y as usize;
        fill_box(image, x - 1, x + 2, y - 1, y + 2, blue);
        fill_box(image, x - 5, x + 6, y - 5, y - 4, blue);
        fill_box(image, x - 5, x + 6, y + 5, y + 6, blue);
        fill_box(image, x - 5, x - 4, y - 5, y + 6, blue);
        fill_box(image, x + 5, x + 6, y - 5, y + 6, blue);
    }
}

impl DrawCaptureRegion for Rect {
    /// The border pixels, right and bottom edges included, must fit.
    open spec fn can_draw(&self, image: Frame) -> bool {
        &&& 0 <= self.left && 0 <= self.width && self.left + self.width < image.width
        &&& 0 <= self.top && 0 <= self.height && self.top + self.height < image.height
    }

    /// The border of the rectangle: its top and bottom rows over the
    /// rectangle's columns, and its left and right columns over the
    /// rectangle's rows.
    open spec fn marks(&self, x: int, y: int) -> bool {
        ||| ((y == self.top || y == self.top + self.height) && self.left <= x < self.left
            + self.width)
        ||| ((x == self.left || x == self.left + self.width) && self.top <= y < self.top
            + self.height)
    }

    open spec fn mark_color(&self) -> Rgb {
        Rgb { r: 255, g: 0, b: 0 }
    }

    fn draw_capture_region(&self, image: &mut Frame) {
        let red = Rgb { r: 255, g: 0, b: 0 };
        let left: usize = self.left as usize;
        let top: usize = self.top as usize;
        let right: usize = (self.left + self.width) as usize;
        let bottom: usize = (self.top + self.height) as usize;
        fill_box(image, left, right, top, top + 1, red);
        fill_box(image, left, right, bottom, bottom + 1, red);
        fill_box(image, left, left + 1, top, bottom, red);
        fill_box(image, right, right + 1, top, bottom, red);
    }
}

} // verus!
