use vstd::prelude::*;

verus! {

/// Three, whatever was measured and in whatever unit.
pub fn print_labeled_measurement(value: i32, unit_label: char) -> (r: i32)
    ensures
        r == 3,
{
    3
}

} // verus!
