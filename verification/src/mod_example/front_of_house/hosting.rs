use vstd::prelude::*;

verus! {

/// Puts a guest on the list of those who wait, which in the end takes the
/// payment. Returns what the last step of the way reports.
pub fn add_to_waitlist() -> (report: &'static str)
    ensures
        report@ == "take_payment"@,
{
    seat_at_table()
}

/// Seats a guest, and so takes the order.
fn seat_at_table() -> (report: &'static str)
    ensures
        report@ == "take_payment"@,
{
    super::serving::take_order()
}

} // verus!
