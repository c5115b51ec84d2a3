//! A restaurant's back of house: the menu items it prepares.

use vstd::prelude::*;

verus! {

/// An appetizer choice.
pub enum Appetizer {
    Soup,
    Salad,
}

/// A breakfast order: the caller picks the toast, the kitchen picks the
/// seasonal fruit.
pub struct Breakfast {
    pub toast: String,
    seasonal_fruit: String,
}

impl Breakfast {
    /// The toast of the order, as callers see it in specifications.
    pub closed spec fn toast_spec(&self) -> Seq<char> {
        self.toast@
    }

    /// The fruit that comes with the meal; callers can observe it only
    /// through this specification.
    pub closed spec fn fruit(&self) -> Seq<char> {
        self.seasonal_fruit@
    }

    /// A summer breakfast: the requested toast with peaches.
    pub fn summer(toast: &str) -> (r: Breakfast)
        ensures
            r.toast_spec() == toast@,
            r.fruit() == "peaches"@,
    {
        Breakfast {
            toast: String::from_str(toast),
            seasonal_fruit: String::from_str("peaches"),
        }
    }
}

} // verus!
