use vstd::prelude::*;

verus! {

/// Does nothing.
pub fn macro_example() {
}

} // verus!
