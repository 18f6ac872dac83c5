//! A small restaurant front: a wait list, breakfasts, and appetizers.

use vstd::prelude::*;
use vstd::string::StringExecFns;

verus! {

/// Puts a party on the front-of-house wait list.
pub fn add_to_waitlist() {
}

/// Seats a waiting party at a table.
fn seat_at_table() {
}

/// Takes a party's order, putting them on the wait list first.
fn take_order() {
    add_to_waitlist();
}

/// A breakfast order: the customer picks the toast, the kitchen picks
/// the fruit of the season.
pub struct Breakfast {
    pub toast: String,
    seasonal_fruit: String,
}

impl Breakfast {
    /// The chosen toast, for use in specifications.
    pub closed spec fn spec_toast(&self) -> Seq<char> {
        self.toast@
    }

    /// The fruit the kitchen picked, for use in specifications.
    pub closed spec fn spec_fruit(&self) -> Seq<char> {
        self.seasonal_fruit@
    }

    /// A summer breakfast with the given toast and peaches on the side.
    pub fn summer(toast: &str) -> (b: Breakfast)
        ensures
            b.spec_toast() == toast@,
            b.spec_fruit() == "peaches"@,
    {
        Breakfast { toast: String::from_str(toast), seasonal_fruit: String::from_str("peaches") }
    }
}

/// Orders a summer breakfast on rye and changes the toast to wheat; the
/// fruit stays whatever the kitchen picked.
pub fn eat_at_restaurant() -> (meal: Breakfast)
    ensures
        meal.spec_toast() == "Wheat"@,
        meal.spec_fruit() == "peaches"@,
{
    add_to_waitlist();
    add_to_waitlist();
    let mut meal = Breakfast::summer("Rye");
    meal.toast = String::from_str("Wheat");
    meal
}

/// A starter course.
#[derive(Clone, Copy, Debug, PartialEq, Eq, Structural)]
pub enum Appetizer {
    Soup,
    Salad,
}

/// Puts a party on the side room's wait list.
pub fn add_waitlist() {
}

/// Eats in the side room, joining its wait list first.
pub fn eat_somgthing() {
    add_waitlist();
}

} // verus!
