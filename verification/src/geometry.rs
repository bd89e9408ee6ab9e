//! Plane figures and their areas, computed from plain integer dimensions.

use vstd::prelude::*;

verus! {

/// An RGB colour, one byte per channel.
pub struct Color(pub u8, pub u8, pub u8);

/// A point in three-dimensional space.
pub struct Point(pub i64, pub i64, pub i64);

/// A point in the plane.
pub struct Point2D {
    pub x: i64,
    pub y: i64,
}

impl Point2D {
    /// Moves the point by the given offsets along each axis.
    pub fn translate(&mut self, dx: i64, dy: i64)
        requires
            i64::MIN <= old(self).x + dx <= i64::MAX,
            i64::MIN <= old(self).y + dy <= i64::MAX,
        ensures
            final(self).x == old(self).x + dx,
            final(self).y == old(self).y + dy,
    {
        self.x += dx;
        self.y += dy;
    }
}

/// An axis-aligned rectangle.
pub struct Rectangle {
    pub length: u32,
    pub width: u32,
}

/// The area of a rectangle with the given sides.
pub open spec fn rect_area(length: int, width: int) -> int {
    length * width
}

/// The area from two bare side lengths.
pub fn area_1(length: u32, width: u32) -> (area: u32)
    requires
        length * width <= u32::MAX,
    ensures
        area == rect_area(length as int, width as int),
{
    length * width
}

/// The area from a pair of side lengths.
pub fn area_2(dimensions: (u32, u32)) -> (area: u32)
    requires
        dimensions.0 * dimensions.1 <= u32::MAX,
    ensures
        area == rect_area(dimensions.0 as int, dimensions.1 as int),
{
    dimensions.0 * dimensions.1
}

/// The area of a rectangle, read from its named fields.
pub fn area_3(rectangle: &Rectangle) -> (area: u32)
    requires
        rectangle.length * rectangle.width <= u32::MAX,
    ensures
        area == rect_area(rectangle.length as int, rectangle.width as int),
{
    rectangle.length * rectangle.width
}

/// Computes the area of a sample 10 by 20 rectangle in all three ways;
/// each way gives the same 200 square units.
pub fn explain() -> (areas: (u32, u32, u32))
    ensures
        areas.0 == 200,
        areas.1 == 200,
        areas.2 == 200,
{
    let from_sides = area_1(10, 20);
    let dimensions: (u32, u32) = (10, 20);
    let from_pair = area_2(dimensions);
    let rect = Rectangle { length: 10, width: 20 };
    let from_rect = area_3(&rect);
    (from_sides, from_pair, from_rect)
}

} // verus!
