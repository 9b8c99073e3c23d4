//! Cell coordinates, sizes and rectangles of the character grid.

use vstd::prelude::*;

verus! {

/// A cell coordinate pair.
#[derive(Clone, Copy, Debug, PartialEq, Eq, Hash, Structural)]
pub struct Point {
    pub x: i32,
    pub y: i32,
}

impl Point {
    /// The point at the given non-negative coordinates.
    pub fn new(x: i32, y: i32) -> (r: Point)
        requires
            x >= 0,
            y >= 0,
        ensures
            r == (Point { x, y }),
    {
        Point { x, y }
    }

    /// The point at the given coordinates, each negative one raised to zero.
    pub fn new_safe(x: i32, y: i32) -> (r: Point)
        ensures
            r.x == if x >= 0 { x } else { 0 },
            r.y == if y >= 0 { y } else { 0 },
    {
        let x: i32 = if x >= 0 { x } else { 0 };
        let y: i32 = if y >= 0 { y } else { 0 };
        Point { x, y }
    }

    /// The point moved by `(x, y)`, each negative coordinate raised to zero.
    pub fn add(&self, x: i32, y: i32) -> (r: Point)
        requires
            i32::MIN <= self.x + x <= i32::MAX,
            i32::MIN <= self.y + y <= i32::MAX,
        ensures
            r.x == if self.x + x >= 0 { self.x + x } else { 0 },
            r.y == if self.y + y >= 0 { self.y + y } else { 0 },
    {
        Point::new_safe(self.x + x, self.y + y)
    }
}

/// A width and a height in cells.
#[derive(Clone, Copy, Debug, PartialEq, Eq, Hash, Structural)]
pub struct Size {
    pub width: i32,
    pub height: i32,
}

impl Size {
    /// The size of the given non-negative extent.
    pub fn new(width: i32, height: i32) -> (r: Size)
        requires
            width >= 0,
            height >= 0,
        ensures
            r == (Size { width, height }),
    {
        Size { width, height }
    }
}

/// A rectangle, described by its four corners and its size.
#[derive(Clone, Copy, Debug, PartialEq, Eq, Hash, Structural)]
pub struct Rect {
    pub top_left: Point,
    pub top_right: Point,
    pub bottom_right: Point,
    pub bottom_left: Point,
    pub size: Size,
}

impl Rect {
    /// The rectangle whose top-left corner is `origin` and whose size is `size`.
    pub open spec fn spec_from_size(origin: Point, size: Size) -> Rect {
        Rect {
            top_left: origin,
            top_right: Point { x: (origin.x + size.width) as i32, y: origin.y },
            bottom_right: Point {
                x: (origin.x + size.width) as i32,
                y: (origin.y + size.height) as i32,
            },
            bottom_left: Point { x: origin.x, y: (origin.y + size.height) as i32 },
            size,
        }
    }

    /// Builds a rectangle from its top-left corner and its size.
    pub fn from_size(origin: Point, size: Size) -> (r: Rect)
        requires
            origin.x >= 0,
            origin.y >= 0,
            size.width >= 0,
            size.height >= 0,
            origin.x + size.width <= i32::MAX,
            origin.y + size.height <= i32::MAX,
        ensures
            r == Rect::spec_from_size(origin, size),
    {
        let top_right = Point::new(origin.x + size.width, origin.y);
        let bottom_left = Point::new(origin.x, origin.y + size.height);
        let bottom_right = Point::new(top_right.x, bottom_left.y);
        Rect { top_left: origin, top_right, bottom_left, bottom_right, size }
    }

    /// Builds a rectangle from its top-left and bottom-right corners.
    pub fn from_points(top_left: Point, bottom_right: Point) -> (r: Rect)
        requires
            top_left.x >= 0,
            top_left.y >= 0,
            bottom_right.x >= top_left.x,
            bottom_right.y >= top_left.y,
        ensures
            r == Rect::spec_from_size(
                top_left,
                Size {
                    width: (bottom_right.x - top_left.x) as i32,
                    height: (bottom_right.y - top_left.y) as i32,
                },
            ),
            r.bottom_right == bottom_right,
    {
        let size = Size::new(bottom_right.x - top_left.x, bottom_right.y - top_left.y);
        Rect::from_size(top_left, size)
    }

    /// Builds a rectangle from the coordinates of its top-left corner and its
    /// extent.
    pub fn from_values(x: i32, y: i32, width: i32, height: i32) -> (r: Rect)
        requires
            x >= 0,
            y >= 0,
            width >= 0,
            height >= 0,
            x + width <= i32::MAX,
            y + height <= i32::MAX,
        ensures
            r == Rect::spec_from_size(Point { x, y }, Size { width, height }),
    {
        let origin = Point::new(x, y);
        let size = Size::new(width, height);
        Rect::from_size(origin, size)
    }

    /// Builds a rectangle from the coordinates of its top-left and
    /// bottom-right corners.
    pub fn from_point_values(
        top_left_x: i32,
        top_left_y: i32,
        bottom_right_x: i32,
        bottom_right_y: i32,
    ) -> (r: Rect)
        requires
            top_left_x >= 0,
            top_left_y >= 0,
            bottom_right_x >= top_left_x,
            bottom_right_y >= top_left_y,
        ensures
            r == Rect::spec_from_size(
                Point { x: top_left_x, y: top_left_y },
                Size {
                    width: (bottom_right_x - top_left_x) as i32,
                    height: (bottom_right_y - top_left_y) as i32,
                },
            ),
    {
        let top_left = Point::new(top_left_x, top_left_y);
        let bottom_right = Point::new(bottom_right_x, bottom_right_y);
        Rect::from_points(top_left, bottom_right)
    }
}

/// Whether `point` lies in the `w` by `h` cells whose top-left cell is `(x, y)`.
pub open spec fn spec_inside_rect(point: Point, x: int, y: int, w: int, h: int) -> bool {
    x <= point.x && y <= point.y && point.x < x + w && point.y < y + h
}

/// Whether `point` lies in the `w` by `h` cells whose top-left cell is `(x, y)`.
pub fn inside_rect(point: Point, x: i32, y: i32, w: i32, h: i32) -> (r: bool)
    ensures
        r == spec_inside_rect(point, x as int, y as int, w as int, h as int),
{
    let right: i64 = x as i64 + w as i64;
    let bottom: i64 = y as i64 + h as i64;
    x <= point.x && y <= point.y && (point.x as i64) < right && (point.y as i64) < bottom
}

/// A colour with transparency.
#[derive(Clone, Copy, Debug, PartialEq, Eq, Structural)]
pub struct Color {
    pub red: u8,
    pub green: u8,
    pub blue: u8,
    pub alpha: u8,
}

} // verus!
