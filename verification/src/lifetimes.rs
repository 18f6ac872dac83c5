//! Functions whose results borrow from their arguments.

use vstd::prelude::*;
use vstd::string::StrSliceExecFns;

verus! {

/// Hands back its first argument; the result borrows from `x` alone.
pub fn longest<'a>(x: &'a str, y: &str) -> (r: &'a str)
    ensures
        r@ == x@,
{
    x
}

/// An excerpt that borrows part of a longer text.
pub struct ImportantExcerpt<'a> {
    pub part: &'a str,
}

impl<'a> ImportantExcerpt<'a> {
    /// The fixed level of any excerpt.
    pub fn level(&self) -> (r: i32)
        ensures
            r == 3,
    {
        3
    }

    /// Hands out the borrowed part; the announcement is left to the
    /// caller to display.
    pub fn announce_and_return_part(&self, announcement: &str) -> (r: &str)
        ensures
            r@ == self.part@,
    {
        let _ = announcement;
        self.part
    }
}

/// The longer of two strings, measured in characters; ties go to `y`.
/// The announcement is left to the caller to display.
pub fn longest_with_an_announcement<'a, T: core::fmt::Display>(
    x: &'a str,
    y: &'a str,
    ann: T,
) -> (r: &'a str)
    ensures
        x@.len() > y@.len() ==> r@ == x@,
        x@.len() <= y@.len() ==> r@ == y@,
{
    let _ = ann;
    if x.unicode_len() > y.unicode_len() {
        x
    } else {
        y
    }
}

} // verus!
