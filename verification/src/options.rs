//! Pattern matching on optional values and on a small coin enum.

use vstd::prelude::*;

verus! {

/// A state whose quarter can be collected.
#[derive(Clone, Copy, Debug, PartialEq, Eq, Structural)]
pub enum UsState {
    Alabama,
    Alaska,
}

/// A United States coin.
#[derive(Clone, Copy, Debug, PartialEq, Eq, Structural)]
pub enum Coin {
    Penny,
    Nickel,
    Dime,
    Quarter(UsState),
}

/// The worth of a coin in cents.
pub open spec fn spec_cents(coin: Coin) -> u8 {
    match coin {
        Coin::Penny => 1,
        Coin::Nickel => 5,
        Coin::Dime => 10,
        Coin::Quarter(_) => 25,
    }
}

/// Returns the worth of `coin` in cents.
pub fn test_match(coin: Coin) -> (r: u8)
    ensures
        r == spec_cents(coin),
{
    match coin {
        Coin::Penny => 1,
        Coin::Nickel => 5,
        Coin::Dime => 10,
        Coin::Quarter(_state) => 25,
    }
}

/// Worth of the sample coin, an Alaska state quarter.
pub fn test_option() -> (r: u8)
    ensures
        r == 25,
{
    let c = Coin::Quarter(UsState::Alaska);
    test_match(c)
}

/// Adds one inside an optional value; `None` stays `None`.
pub fn plus_one(x: Option<i32>) -> (r: Option<i32>)
    requires
        x is Some ==> x->0 < i32::MAX,
    ensures
        x is None ==> r is None,
        x is Some ==> r == Some((x->0 + 1) as i32),
{
    match x {
        Option::None => Option::None,
        Option::Some(i) => Option::Some(i + 1),
    }
}

} // verus!
