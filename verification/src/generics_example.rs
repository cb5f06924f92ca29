use vstd::prelude::*;

verus! {

/// The first element of a list that has one.
pub fn get_zero<T>(list: &[T]) -> (first: &T)
    requires
        list@.len() > 0,
    ensures
        *first == list@[0],
{
    &list[0]
}

/// A point whose coordinates are of one type.
#[derive(Debug)]
pub struct Point<T> {
    pub x: T,
    pub y: T,
}

/// A point whose coordinates may be of two types.
#[derive(Debug)]
pub struct Point2<T, U> {
    pub x: T,
    pub y: U,
}

impl<T> Point<T> {
    /// The first coordinate.
    pub fn x(&self) -> (x: &T)
        ensures
            *x == self.x,
    {
        &self.x
    }
}

impl<T, U> Point2<T, U> {
    /// The point with the first coordinate of this one and the second of
    /// `other`.
    pub fn mixup<V, W>(self, other: Point2<V, W>) -> (mixed: Point2<T, W>)
        ensures
            mixed.x == self.x,
            mixed.y == other.y,
    {
        Point2 { x: self.x, y: other.y }
    }
}

} // verus!
