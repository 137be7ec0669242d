use vstd::prelude::*;

verus! {

/// Puts a guest on the waiting list.
pub fn add_to_waitlist() {
}

/// Seats a guest at a table.
pub fn seat_at_table() {
}

} // verus!
