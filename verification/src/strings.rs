//! Growing a string by repeated pushes.

use vstd::prelude::*;
use vstd::string::StringExecFns;

verus! {

/// Builds one string from four pieces, pushed on one after the other.
pub fn test_push_str() -> (r: String)
    ensures
        r@ == "foo"@ + "bar"@ + "bar2"@ + "l"@,
{
    let mut s = String::from_str("foo");
    s.append("bar");
    let s1 = String::from_str("bar2");
    s.append(s1.as_str());
    s.append("l");
    s
}

} // verus!
