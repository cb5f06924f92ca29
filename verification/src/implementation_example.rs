use vstd::prelude::*;

verus! {

/// A rectangle with sides parallel to the axes.
#[derive(Debug)]
pub struct Rectangle {
    pub width: u32,
    pub height: u32,
}

impl Rectangle {
    /// The area, width times height.
    pub fn area(&self) -> (area: u32)
        requires
            self.width * self.height <= u32::MAX,
        ensures
            area == self.width * self.height,
    {
        self.width * self.height
    }

    /// Whether the rectangle has any width at all.
    pub fn width(&self) -> (wide: bool)
        ensures
            wide == (self.width > 0),
    {
        self.width > 0
    }

    /// Whether `other` fits into this rectangle with room to spare on every
    /// side: this one is both wider and higher.
    pub fn can_hold(&self, other: &Rectangle) -> (fits: bool)
        ensures
            fits == (self.width > other.width && self.height > other.height),
    {
        self.width > other.width && self.height > other.height
    }

    /// The square with sides of length `size`.
    pub fn square(size: u32) -> (square: Rectangle)
        ensures
            square.width == size,
            square.height == size,
    {
        Rectangle { width: size, height: size }
    }
}

/// The area of `rectangle`, width times height.
pub fn area(rectangle: &Rectangle) -> (area: u32)
    requires
        rectangle.width * rectangle.height <= u32::MAX,
    ensures
        area == rectangle.width * rectangle.height,
{
    rectangle.width * rectangle.height
}

} // verus!
