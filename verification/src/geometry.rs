//! Where things are on the display: the pixel at which each cell of the grid
//! starts, and the area that a cell covers.

use vstd::prelude::*;
use embedded_graphics::geometry::{Point, Size};
use embedded_graphics::primitives::Rectangle;
use crate::cache::Position;

verus! {

/// A pixel position on the display: `embedded_graphics::geometry::Point`,
/// with its two public coordinates.
#[verifier::external_type_specification]
pub struct ExPoint(Point);

/// A width and a height in pixels: `embedded_graphics::geometry::Size`, with
/// its two public extents.
#[verifier::external_type_specification]
pub struct ExSize(Size);

/// An area of the display: `embedded_graphics::primitives::Rectangle`, with
/// its public corner and size.
#[verifier::external_type_specification]
pub struct ExRectangle(Rectangle);

/// `Point::new` of embedded-graphics: the point with the two coordinates
/// given, which is all that its body does.
pub assume_specification[ Point::new ](x: i32, y: i32) -> (point: Point)
    ensures
        point.x == x,
        point.y == y,
;

/// `Size::new` of embedded-graphics: the size with the two extents given,
/// which is all that its body does.
pub assume_specification[ Size::new ](width: u32, height: u32) -> (size: Size)
    ensures
        size.width == width,
        size.height == height,
;

/// `Rectangle::new` of embedded-graphics: the rectangle with the corner and
/// the size given, which is all that its body does.
pub assume_specification[ Rectangle::new ](top_left: Point, size: Size) -> (area: Rectangle)
    ensures
        area.top_left == top_left,
        area.size == size,
;

/// Width of a cell of the grid, in pixels: five characters of nine pixels.
pub const CELL_WIDTH: u32 = 45;

/// Height of a cell of the grid, in pixels.
pub const CELL_HEIGHT: u32 = 16;

/// The pixel at which a cell of the grid starts: columns are 54 pixels
/// apart and begin at 27, rows are 16 pixels apart and begin at 16.
pub open spec fn pixel_of(point: Position) -> Point {
    Point { x: (27 + 54 * point.0) as i32, y: (16 + 16 * point.1) as i32 }
}

/// The area that the cell starting at a pixel covers.
pub open spec fn area_at(pixel: Point) -> Rectangle {
    Rectangle { top_left: pixel, size: Size { width: CELL_WIDTH, height: CELL_HEIGHT } }
}

/// Where on the display a cell of the grid starts.
pub fn translate_point(point: (i32, i32)) -> (pixel: Point)
    requires
        i32::MIN <= 54 * point.0 && 27 + 54 * point.0 <= i32::MAX,
        i32::MIN <= 16 * point.1 && 16 + 16 * point.1 <= i32::MAX,
    ensures
        pixel == pixel_of(point),
{
    Point::new(27 + 6 * 9 * point.0, 16 + 16 * point.1)
}

/// The area that the cell starting at a pixel covers.
pub fn cell_area(pixel: Point) -> (area: Rectangle)
    ensures
        area == area_at(pixel),
{
    Rectangle::new(pixel, Size::new(CELL_WIDTH, CELL_HEIGHT))
}

} // verus!
