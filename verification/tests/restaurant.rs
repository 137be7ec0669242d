use rustbook::restaurant::back_of_house::{Appetizer, Breakfast};
use rustbook::restaurant::eat_at_restaurant;
use rustbook::restaurant::front_of_house::hosting::add_to_waitlist;

#[test]
fn summer_breakfast_keeps_the_toast() {
    let meal = Breakfast::summer("Rye");
    assert_eq!(meal.toast, "Rye");
    add_to_waitlist();
    let _orders = [Appetizer::Soup, Appetizer::Salad];
}

#[test]
fn eating_changes_the_toast_to_wheat() {
    let meal = eat_at_restaurant();
    assert_eq!(meal.toast, "Wheat");
}
