use vstd::prelude::*;

verus! {

/// Takes an order: nothing is kept of it.
pub fn take_my_order() {
}

/// Serves an order: nothing is kept of it.
pub fn serve_my_order() {
}

/// Takes a payment: nothing is kept of it.
pub fn take_payment() {
}

} // verus!
