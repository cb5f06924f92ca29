use vstd::prelude::*;

verus! {

/// Takes the order, and so serves it.
pub fn take_order() -> (report: &'static str)
    ensures
        report@ == "take_payment"@,
{
    server_order()
}

/// Serves the order, and so takes the payment.
fn server_order() -> (report: &'static str)
    ensures
        report@ == "take_payment"@,
{
    take_payment()
}

/// Takes the payment and reports it.
fn take_payment() -> (report: &'static str)
    ensures
        report@ == "take_payment"@,
{
    "take_payment"
}

} // verus!
