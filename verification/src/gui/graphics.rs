//! Drawing embedded-graphics primitives on the canvas: the bounding box of the canvas,
//! which pixels are drawn, the color they are drawn in, and the box a solid fill becomes.

use embedded_graphics_core::geometry::{Point, Size};
use embedded_graphics_core::primitives::Rectangle;
use vstd::prelude::*;

verus! {

/// The firmware's white color.
pub const COLOR_WHITE: u8 = 0;
/// The firmware's black color.
pub const COLOR_BLACK: u8 = 1;

/// A rectangle as plain values: its top left corner and its size.
#[derive(Clone, Copy, Debug, PartialEq, Eq, Structural)]
pub struct Area {
    pub x: i32,
    pub y: i32,
    pub width: u32,
    pub height: u32,
}

impl Area {
    /// The bottom right corner of a non-empty rectangle can be computed in 32 bits.
    pub open spec fn fits(self) -> bool {
        self.width > 0 && self.height > 0 ==> {
            &&& self.width <= i32::MAX
            &&& self.height <= i32::MAX
            &&& self.x + self.width <= i32::MAX
            &&& self.y + self.height <= i32::MAX
        }
    }

    /// Every point of `inner` is a point of this rectangle.
    pub open spec fn covers(self, inner: Area) -> bool {
        &&& self.x <= inner.x
        &&& inner.x + inner.width <= self.x + self.width
        &&& self.y <= inner.y
        &&& inner.y + inner.height <= self.y + self.height
    }

    /// The rectangle holds no point.
    pub open spec fn is_empty(self) -> bool {
        self.width == 0 || self.height == 0
    }

    /// The column of the rightmost points of a non-empty rectangle.
    pub open spec fn right(self) -> int {
        self.x + self.width - 1
    }

    /// The row of the lowest points of a non-empty rectangle.
    pub open spec fn bottom(self) -> int {
        self.y + self.height - 1
    }

    /// The point (`x`, `y`) is a point of this rectangle.
    pub open spec fn contains_point(self, x: int, y: int) -> bool {
        !self.is_empty() && self.x <= x <= self.right() && self.y <= y <= self.bottom()
    }
}

/// The zero-sized rectangle at the origin.
pub open spec fn zero_area() -> Area {
    Area { x: 0, y: 0, width: 0, height: 0 }
}

/// The larger of two integers.
pub open spec fn max_int(a: int, b: int) -> int {
    if a >= b { a } else { b }
}

/// The smaller of two integers.
pub open spec fn min_int(a: int, b: int) -> int {
    if a <= b { a } else { b }
}

/// Two non-empty rectangles share a point: from the larger top left corner to the smaller
/// bottom right corner is not empty.
pub open spec fn overlap(a: Area, b: Area) -> bool {
    &&& max_int(a.x as int, b.x as int) <= min_int(a.right(), b.right())
    &&& max_int(a.y as int, b.y as int) <= min_int(a.bottom(), b.bottom())
}

/// The points two overlapping rectangles share: from the larger top left corner to the
/// smaller bottom right corner.
pub open spec fn overlap_area(a: Area, b: Area) -> Area {
    Area {
        x: max_int(a.x as int, b.x as int) as i32,
        y: max_int(a.y as int, b.y as int) as i32,
        width: (min_int(a.right(), b.right()) - max_int(a.x as int, b.x as int) + 1) as u32,
        height: (min_int(a.bottom(), b.bottom()) - max_int(a.y as int, b.y as int) + 1) as u32,
    }
}

/// Calls `Rectangle::intersection` of embedded-graphics-core on the rectangles `a` and `b`.
/// The call computes the bottom right corner of each non-empty rectangle, which `fits`
/// keeps from overflowing. Two non-empty rectangles give the points they share, or the
/// zero rectangle when they share none; an empty rectangle comes back as it is when it
/// lies inside the other, non-empty one; otherwise the zero rectangle comes back.
#[verifier::external_body]
fn intersection(a: Area, b: Area) -> (r: Area)
    requires
        a.fits(),
        b.fits(),
    ensures
        !a.is_empty() && !b.is_empty() ==> r == (if overlap(a, b) {
            overlap_area(a, b)
        } else {
            zero_area()
        }),
        a.is_empty() && !b.is_empty() ==> r == (if b.contains_point(a.x as int, a.y as int) {
            a
        } else {
            zero_area()
        }),
        !a.is_empty() && b.is_empty() ==> r == (if a.contains_point(b.x as int, b.y as int) {
            b
        } else {
            zero_area()
        }),
        a.is_empty() && b.is_empty() ==> r == zero_area(),
{
    let ra = Rectangle::new(Point::new(a.x, a.y), Size::new(a.width, a.height));
    let rb = Rectangle::new(Point::new(b.x, b.y), Size::new(b.width, b.height));
    let r = ra.intersection(&rb);
    Area { x: r.top_left.x, y: r.top_left.y, width: r.size.width, height: r.size.height }
}

/// The bounding box of a canvas of `width` by `height` pixels: from the origin, the whole
/// canvas.
pub open spec fn spec_bounding_box(width: usize, height: usize) -> Area {
    Area { x: 0, y: 0, width: width as u32, height: height as u32 }
}

/// The bounding box of a canvas of `width` by `height` pixels.
pub fn bounding_box(width: usize, height: usize) -> (r: Area)
    ensures
        r == spec_bounding_box(width, height),
{
    Area { x: 0, y: 0, width: width as u32, height: height as u32 }
}

/// The firmware's color for a pixel of a two-color image: black when the pixel is on,
/// white when it is off.
pub fn color_for(on: bool) -> (r: u8)
    ensures
        r == (if on { COLOR_BLACK } else { COLOR_WHITE }),
{
    if on {
        COLOR_BLACK
    } else {
        COLOR_WHITE
    }
}

/// Whether the pixel at (`x`, `y`) is drawn on a canvas of `width` by `height` pixels:
/// each coordinate from zero up to, and not including, the canvas size (read as a 32-bit
/// signed number). Pixels outside the canvas are discarded.
pub open spec fn spec_pixel_drawn(x: i32, y: i32, width: usize, height: usize) -> bool {
    0 <= x < (width as i32) && 0 <= y < (height as i32)
}

/// Whether the pixel at (`x`, `y`) is drawn on a canvas of `width` by `height` pixels.
pub fn pixel_drawn(x: i32, y: i32, width: usize, height: usize) -> (r: bool)
    ensures
        r == spec_pixel_drawn(x, y, width, height),
{
    let w = width as i32;
    let h = height as i32;
    0 <= x && x < w && 0 <= y && y < h
}

/// A pixel is drawn exactly when it is a point of the canvas's bounding box; a pixel one
/// past the right or the bottom edge is not.
pub proof fn lemma_pixel_drawn_on_canvas(x: i32, y: i32, width: usize, height: usize)
    requires
        width <= i32::MAX,
        height <= i32::MAX,
    ensures
        spec_pixel_drawn(x, y, width, height) <==> spec_bounding_box(width, height).contains_point(
            x as int,
            y as int,
        ),
        !spec_pixel_drawn(width as i32, y, width, height),
        !spec_pixel_drawn(x, height as i32, width, height),
{
}

/// A box for the firmware to draw: its top left corner and its size.
#[derive(Clone, Copy, Debug, PartialEq, Eq, Structural)]
pub struct CanvasBox {
    pub x: i32,
    pub y: i32,
    pub width: usize,
    pub height: usize,
}

/// The box that the clamped area `clamped` is drawn as: none when it is empty.
pub open spec fn spec_box_to_fill(clamped: Area) -> Option<CanvasBox> {
    if clamped.width > 0 && clamped.height > 0 {
        Some(
            CanvasBox {
                x: clamped.x,
                y: clamped.y,
                width: clamped.width as usize,
                height: clamped.height as usize,
            },
        )
    } else {
        None
    }
}

/// The box that the area `clamped`, already clamped to the canvas, is drawn as.
pub fn box_to_fill(clamped: Area) -> (r: Option<CanvasBox>)
    ensures
        r == spec_box_to_fill(clamped),
{
    if clamped.width > 0 && clamped.height > 0 {
        Some(
            CanvasBox {
                x: clamped.x,
                y: clamped.y,
                width: clamped.width as usize,
                height: clamped.height as usize,
            },
        )
    } else {
        None
    }
}

/// The box that filling `area` on a canvas of `width` by `height` pixels draws: the
/// points the area shares with the canvas, or none when it shares none.
pub open spec fn spec_fill_solid_box(area: Area, width: usize, height: usize) -> Option<CanvasBox> {
    let canvas = spec_bounding_box(width, height);
    if !area.is_empty() && !canvas.is_empty() && overlap(area, canvas) {
        spec_box_to_fill(overlap_area(area, canvas))
    } else {
        None
    }
}

/// A solid fill draws exactly the points of the area that lie on the canvas: every point
/// of the area on the canvas lies in the drawn box, and every point of the drawn box lies
/// in the area and on the canvas. In particular a fill draws nothing only when no point of
/// the area is on the canvas.
pub proof fn lemma_fill_draws_visible_points(area: Area, width: usize, height: usize, px: int, py: int)
    requires
        area.fits(),
        width <= i32::MAX,
        height <= i32::MAX,
    ensures
        area.contains_point(px, py) && 0 <= px < width && 0 <= py < height ==> (spec_fill_solid_box(
            area,
            width,
            height,
        ) matches Some(b) && b.x <= px < b.x + b.width && b.y <= py < b.y + b.height),
        spec_fill_solid_box(area, width, height) matches Some(b) ==> (b.x <= px < b.x + b.width && b.y
            <= py < b.y + b.height ==> area.contains_point(px, py) && 0 <= px < width && 0 <= py
            < height),
{
}

/// A clamped area with at least one point is drawn as a box of exactly its corner and
/// size; an area without points is not drawn.
pub proof fn lemma_box_to_fill_keeps_area(clamped: Area)
    ensures
        clamped.width > 0 && clamped.height > 0 ==> (spec_box_to_fill(clamped) matches Some(b) && b.x
            == clamped.x && b.y == clamped.y && b.width == clamped.width && b.height == clamped.height),
        clamped.width == 0 || clamped.height == 0 ==> spec_box_to_fill(clamped) is None,
{
}

/// The box that filling `area` on a canvas of `width` by `height` pixels draws: the points
/// of the area on the canvas, or none when no point of it is.
pub fn fill_solid_box(area: Area, width: usize, height: usize) -> (r: Option<CanvasBox>)
    requires
        area.fits(),
        width <= i32::MAX,
        height <= i32::MAX,
    ensures
        r == spec_fill_solid_box(area, width, height),
        r matches Some(b) ==> {
            &&& 0 <= b.x && b.x + b.width <= width
            &&& 0 <= b.y && b.y + b.height <= height
            &&& area.x <= b.x && b.x + b.width <= area.x + area.width
            &&& area.y <= b.y && b.y + b.height <= area.y + area.height
        },
{
    let canvas = bounding_box(width, height);
    let clamped = intersection(area, canvas);
    box_to_fill(clamped)
}

} // verus!
