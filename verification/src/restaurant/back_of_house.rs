use vstd::prelude::*;

verus! {

/// Puts right an order that went wrong: cooks it again and serves it.
pub fn fix_incorrect_order() {
    cook_order();
    super::serve_order();
}

/// Cooks an order.
pub fn cook_order() {
}

/// A breakfast: the guest picks the toast; the seasonal fruit is the
/// kitchen's choice and cannot be changed from outside the library.
pub struct Breakfast {
    pub toast: String,
    pub(crate) seasonal_fruit: String,
}

impl Breakfast {
    /// The toast the guest chose.
    pub closed spec fn toast_text(&self) -> Seq<char> {
        self.toast@
    }

    /// The seasonal fruit that comes with the breakfast.
    pub closed spec fn fruit(&self) -> Seq<char> {
        self.seasonal_fruit@
    }

    /// A summer breakfast with the given toast; its seasonal fruit is peaches.
    pub fn summer(toast: &str) -> (b: Breakfast)
        ensures
            b.toast_text() == toast@,
            b.fruit() == "peaches"@,
    {
        Breakfast { toast: toast.to_owned(), seasonal_fruit: "peaches".to_owned() }
    }
}

/// `toast_text` and `fruit` are the texts of the two fields.
pub(crate) proof fn lemma_breakfast_fields(b: &Breakfast)
    ensures
        b.toast_text() == b.toast@,
        b.fruit() == b.seasonal_fruit@,
{
}

/// The appetizers on the menu.
pub enum Appetizer {
    Soup,
    Salad,
}

} // verus!
