use vstd::prelude::*;
use vstd::string::StringExecFns;

pub mod front_of_house;
pub mod back_of_house;

use back_of_house::Breakfast;

verus! {

/// Serves an order at the table.
pub fn serve_order() {
}

/// Orders a summer breakfast with rye toast, then changes the toast to wheat.
/// The guest is put on the waiting list twice on the way in.
pub fn eat_at_restaurant() -> (meal: Breakfast)
    ensures
        meal.toast_text() == "Wheat"@,
        meal.fruit() == "peaches"@,
{
    crate::restaurant::front_of_house::hosting::add_to_waitlist();
    front_of_house::hosting::add_to_waitlist();
    let mut meal = Breakfast::summer("Rye");
    proof {
        back_of_house::lemma_breakfast_fields(&meal);
    }
    meal.toast = String::from_str("Wheat");
    proof {
        back_of_house::lemma_breakfast_fields(&meal);
    }
    meal
}

} // verus!
