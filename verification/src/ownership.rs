//! Passing strings by value and by reference.

use vstd::prelude::*;
use vstd::string::StrSliceExecFns;
use vstd::string::StringExecFns;

verus! {

/// The length of `s` in characters.
pub fn calculate_length(s: &String) -> (r: usize)
    ensures
        r == s@.len(),
{
    s.as_str().unicode_len()
}

/// Appends `", world"` to `s` and returns the new length in characters.
pub fn calculate_length_and_append(s: &mut String) -> (r: usize)
    ensures
        final(s)@ == old(s)@ + ", world"@,
        r == final(s)@.len(),
{
    s.append(", world");
    s.as_str().unicode_len()
}

/// Hands out a freshly made string.
pub fn gives_ownership() -> (r: String)
    ensures
        r@ == "hello"@,
{
    String::from_str("hello")
}

/// Takes ownership of a string and hands the very same string back.
pub fn takes_and_gives_back(a_string: String) -> (r: String)
    ensures
        r == a_string,
{
    a_string
}

} // verus!
