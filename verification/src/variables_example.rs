use crate::decimal::{decimal, push_decimal, push_signed_decimal, signed_decimal};
use vstd::prelude::*;
use vstd::string::*;

verus! {

/// The name of the language.
pub const LANGUAGE: &'static str = "Rust";

/// The threshold.
pub const THRESHOLD: i32 = 10;

/// A list of numbers that knows how to show itself.
pub struct List(pub Vec<i32>);

/// The first `count` entries of `numbers`, each as its index, a colon, a
/// space and the number, with a comma and a space between two entries.
pub open spec fn entries(numbers: Seq<i32>, count: nat) -> Seq<char>
    decreases count,
{
    if count == 0 {
        Seq::empty()
    } else {
        let index = (count - 1) as nat;
        entries(numbers, index) + (if index != 0 {
            ", "@
        } else {
            Seq::empty()
        }) + decimal(index) + ": "@ + signed_decimal(numbers[index as int] as int)
    }
}

impl List {
    /// The list as text: the entries in square brackets.
    pub open spec fn text(self) -> Seq<char> {
        "["@ + entries(self.0@, self.0@.len()) + "]"@
    }

    /// The list as text: in square brackets, each number behind its index,
    /// a colon and a space, with a comma and a space between two entries.
    pub fn to_string(&self) -> (text: String)
        ensures
            text@ == self.text(),
    {
        let mut text = String::from_str("[");
        let mut i: usize = 0;
        assert(text@ =~= "["@ + entries(self.0@, 0));
        while i < self.0.len()
            invariant
                i <= self.0@.len(),
                text@ == "["@ + entries(self.0@, i as nat),
            decreases self.0@.len() - i,
        {
            let ghost before = text@;
            if i != 0 {
                text.append(", ");
            }
            push_decimal(&mut text, i as u64);
            text.append(": ");
            push_signed_decimal(&mut text, self.0[i] as i64);
            i = i + 1;
            assert(text@ =~= "["@ + entries(self.0@, i as nat));
        }
        text.append("]");
        text
    }
}

} // verus!
