//! A rectangle with a width and a length.

use vstd::prelude::*;

verus! {

/// An axis-aligned rectangle.
#[derive(Clone, Copy, Debug)]
pub struct Rectangle {
    pub width: u32,
    pub length: u32,
}

impl Rectangle {
    /// The area of the rectangle.
    pub fn area(&self) -> (r: u32)
        requires
            self.width * self.length <= u32::MAX,
        ensures
            r == self.width * self.length,
    {
        self.width * self.length
    }

    /// True when `other` fits strictly inside `self` in both directions.
    pub fn can_hold(&self, other: &Rectangle) -> (r: bool)
        ensures
            r == (self.width > other.width && self.length > other.length),
    {
        self.width > other.width && self.length > other.length
    }

    /// A square with the given side length.
    pub fn square(size: u32) -> (r: Rectangle)
        ensures
            r.width == size,
            r.length == size,
    {
        Rectangle { width: size, length: size }
    }
}

} // verus!
