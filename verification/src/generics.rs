//! Generic pairs of values and a search for the largest element.

use vstd::prelude::*;

verus! {

/// A point whose two coordinates may have different types.
pub struct Point<T, U> {
    pub x: T,
    pub y: U,
}

impl<T, U> Point<T, U> {
    /// Combines the `x` of `self` with the `y` of `other`.
    pub fn mixup<V, W>(self, other: Point<V, W>) -> (r: Point<T, W>)
        ensures
            r.x == self.x,
            r.y == other.y,
    {
        Point { x: self.x, y: other.y }
    }
}

/// A point whose two coordinates share one type.
pub struct PointI<T> {
    pub x: T,
    pub y: T,
}

impl<T> PointI<T> {
    /// A reference to the first coordinate.
    pub fn x(&self) -> (r: &T)
        ensures
            *r == self.x,
    {
        &self.x
    }
}

impl PointI<i32> {
    /// The first coordinate, available only at the integer instance.
    pub fn xi32(&self) -> (r: &i32)
        ensures
            *r == self.x,
    {
        &self.x
    }
}

/// An ordered pair of two values of one type.
pub struct Pair<T> {
    pub x: T,
    pub y: T,
}

impl<T> Pair<T> {
    /// Builds a pair from its two members.
    pub fn new(x: T, y: T) -> (r: Pair<T>)
        ensures
            r.x == x,
            r.y == y,
    {
        Pair { x, y }
    }
}

/// The largest element of a non-empty list: it occurs in the list and
/// no element exceeds it.
pub fn largest(list: &Vec<u64>) -> (r: &u64)
    requires
        list@.len() > 0,
    ensures
        exists|i: int| 0 <= i < list@.len() && *r == list@[i],
        forall|i: int| 0 <= i < list@.len() ==> list@[i] <= *r,
{
    let mut best: usize = 0;
    let mut i: usize = 1;
    while i < list.len()
        invariant
            0 <= best < i <= list@.len(),
            forall|j: int| 0 <= j < i ==> list@[j] <= list@[best as int],
        decreases list@.len() - i,
    {
        if list[i] > list[best] {
            best = i;
        }
        i = i + 1;
    }
    &list[best]
}

} // verus!
