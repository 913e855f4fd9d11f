//! A guest's visit.

use vstd::prelude::*;

use crate::restaurant::back_of_house::Appetizer;
use crate::restaurant::back_of_house::Breakfast;
pub use crate::restaurant::front_of_house::hosting;

verus! {

/// What came of a visit.
pub struct Visit {
    /// Whether the guest got onto the waitlist.
    pub waitlisted: bool,
    /// The breakfast as finally ordered.
    pub meal: Breakfast,
    /// The two appetizers ordered.
    pub appetizers: (Appetizer, Appetizer),
}

/// Waits for a table, orders a summer breakfast with rye toast, thinks again
/// and takes wheat, and orders soup and salad.
pub fn eat_at_restaurant() -> (visit: Visit)
    ensures
        visit.waitlisted,
        visit.meal.bread() == "Wheat"@,
        visit.meal.fruit() == "peaches"@,
        visit.appetizers == (Appetizer::Soup, Appetizer::Salad),
{
    let waitlisted = hosting::add_to_waitlist();

    let mut meal = Breakfast::summer("Rye");
    meal.change_toast("Wheat");

    let app1 = Appetizer::Soup;
    let app2 = Appetizer::Salad;

    Visit { waitlisted, meal, appetizers: (app1, app2) }
}

} // verus!
