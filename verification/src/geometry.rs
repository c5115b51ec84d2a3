//! Rectangles and points, with their area and accessor operations.

use vstd::prelude::*;

verus! {

/// A rectangle given by its side lengths in pixels.
#[derive(Debug)]
pub struct Rectangle {
    pub width: u32,
    pub height: u32,
}

impl Rectangle {
    /// The area of the rectangle; the sides must not overflow the product.
    pub fn area(&self) -> (r: u32)
        requires
            self.width * self.height <= u32::MAX,
        ensures
            r == self.width * self.height,
    {
        self.width * self.height
    }
}

/// The area of a rectangle given as a `(width, height)` tuple.
pub fn area_tuple(dimensions: (u32, u32)) -> (r: u32)
    requires
        dimensions.0 * dimensions.1 <= u32::MAX,
    ensures
        r == dimensions.0 * dimensions.1,
{
    dimensions.0 * dimensions.1
}

/// The area of a borrowed rectangle, computed from its fields.
pub fn area_struct(rectangle: &Rectangle) -> (r: u32)
    requires
        rectangle.width * rectangle.height <= u32::MAX,
    ensures
        r == rectangle.width * rectangle.height,
{
    rectangle.width * rectangle.height
}

/// The area of a borrowed rectangle, through its own method.
pub fn area_fn_struct(rectangle: &Rectangle) -> (r: u32)
    requires
        rectangle.width * rectangle.height <= u32::MAX,
    ensures
        r == rectangle.width * rectangle.height,
{
    rectangle.area()
}

/// A point with two coordinates of any one type.
#[derive(Debug)]
pub struct Point<T> {
    pub x: T,
    pub y: T,
}

impl<T> Point<T> {
    /// Borrows the first coordinate.
    pub fn x(&self) -> (r: &T)
        ensures
            *r == self.x,
    {
        &self.x
    }
}

} // verus!
