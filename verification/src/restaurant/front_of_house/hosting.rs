//! Seating guests.

use vstd::prelude::*;

verus! {

/// Puts a guest on the waitlist. The result says whether there was room: the
/// list has no limit, so there always is.
pub fn add_to_waitlist() -> (added: bool)
    ensures
        added,
{
    true
}

/// Seats a waiting guest. Nothing is recorded of it.
pub fn seat_at_table() {
}

} // verus!
