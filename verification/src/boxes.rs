//! A minimal smart-pointer-like wrapper around a single value.

use vstd::prelude::*;

verus! {

/// A box that owns one value.
pub struct MyBox<T>(pub T);

impl<T> MyBox<T> {
    /// Wraps `x`.
    pub fn new(x: T) -> (r: MyBox<T>)
        ensures
            r.0 == x,
    {
        MyBox(x)
    }

    /// A reference to the wrapped value.
    pub fn inner(&self) -> (r: &T)
        ensures
            *r == self.0,
    {
        &self.0
    }
}

} // verus!
