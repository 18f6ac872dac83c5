//! A guess value validated to lie in `1..=100`.

use vstd::prelude::*;

verus! {

/// An integer guess that is known to lie between 1 and 100 inclusive.
pub struct Guess {
    value: i32,
}

impl Guess {
    /// The wrapped value, for use in specifications.
    pub closed spec fn spec_value(&self) -> i32 {
        self.value
    }

    /// The wrapped value always lies in `1..=100`.
    pub open spec fn wf(&self) -> bool {
        1 <= self.spec_value() <= 100
    }

    /// Wraps a value that lies between 1 and 100 inclusive.
    pub fn new(value: i32) -> (g: Guess)
        requires
            1 <= value <= 100,
        ensures
            g.spec_value() == value,
            g.wf(),
    {
        Guess { value }
    }

    /// The wrapped value.
    pub fn value(&self) -> (r: i32)
        ensures
            r == self.spec_value(),
    {
        self.value
    }
}

} // verus!
