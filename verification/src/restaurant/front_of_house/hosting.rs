use vstd::prelude::*;

verus! {

/// Puts a guest on the waiting list: nothing is kept of it.
pub fn add_to_waitlist() {
}

/// Seats a guest: nothing is kept of it.
pub fn seat_at_table() {
}

} // verus!
