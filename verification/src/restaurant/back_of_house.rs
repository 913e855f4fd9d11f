//! The kitchen.

use vstd::prelude::*;

verus! {

/// A breakfast. The guest picks the bread; the fruit is the chef's choice,
/// and no one outside the kitchen can see or change it. With one field
/// private, verified code outside this module goes through the methods for
/// the other one too.
pub struct Breakfast {
    pub toast: String,
    seasonal_fruit: String,
}

/// A first course.
#[derive(Clone, Copy, Debug, PartialEq, Eq, Structural)]
pub enum Appetizer {
    Soup,
    Salad,
}

impl Breakfast {
    /// The bread of the toast.
    pub closed spec fn bread(&self) -> Seq<char> {
        self.toast@
    }

    /// The fruit that comes with the meal.
    pub closed spec fn fruit(&self) -> Seq<char> {
        self.seasonal_fruit@
    }

    /// A summer breakfast with the bread asked for and peaches.
    pub fn summer(toast: &str) -> (meal: Breakfast)
        ensures
            meal.bread() == toast@,
            meal.fruit() == "peaches"@,
    {
        Breakfast { toast: String::from_str(toast), seasonal_fruit: String::from_str("peaches") }
    }

    /// Orders another bread. The fruit stays as it is.
    pub fn change_toast(&mut self, toast: &str)
        ensures
            final(self).bread() == toast@,
            final(self).fruit() == old(self).fruit(),
    {
        self.toast = String::from_str(toast);
    }

    /// The bread ordered.
    pub fn ordered_toast(&self) -> (toast: &str)
        ensures
            toast@ == self.bread(),
    {
        self.toast.as_str()
    }
}

} // verus!
