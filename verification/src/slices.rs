//! Finding the first word of a string.

use vstd::prelude::*;
use vstd::string::StrSliceExecFns;

verus! {

/// The index of the first space in `s`, or the length of `s` when it
/// holds no space: everything before the result is the first word.
pub fn first_world(s: &String) -> (r: usize)
    ensures
        r <= s@.len(),
        forall|j: int| 0 <= j < r ==> s@[j] != ' ',
        r < s@.len() ==> s@[r as int] == ' ',
{
    let n = s.as_str().unicode_len();
    let mut i: usize = 0;
    while i < n && s.as_str().get_char(i) != ' '
        invariant
            n == s@.len(),
            0 <= i <= n,
            forall|j: int| 0 <= j < i ==> s@[j] != ' ',
        decreases n - i,
    {
        i = i + 1;
    }
    i
}

/// The first word of `s`: its prefix up to, and not including, the
/// first space, or all of `s` when it holds no space.
pub fn first_world_v2(s: &String) -> (r: &str)
    ensures
        r@.len() <= s@.len(),
        r@ == s@.subrange(0, r@.len() as int),
        forall|j: int| 0 <= j < r@.len() ==> s@[j] != ' ',
        r@.len() < s@.len() ==> s@[r@.len() as int] == ' ',
{
    let end = first_world(s);
    s.as_str().substring_char(0, end)
}

} // verus!
