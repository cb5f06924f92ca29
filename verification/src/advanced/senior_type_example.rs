use crate::decimal::{push_signed_decimal, signed_decimal};
use vstd::prelude::*;
use vstd::string::*;

verus! {

/// A number in a wrapper of its own.
#[derive(Debug)]
pub struct Number {
    pub value: i32,
}

impl From<i32> for Number {
    fn from(item: i32) -> (number: Number) {
        Number { value: item }
    }
}

impl vstd::std_specs::convert::FromSpecImpl<i32> for Number {
    open spec fn obeys_from_spec() -> bool {
        true
    }

    open spec fn from_spec(item: i32) -> Number {
        Number { value: item }
    }
}

/// A number that is known to be even.
#[derive(Debug, PartialEq)]
pub struct EvenNumber(pub i32);

impl TryFrom<i32> for EvenNumber {
    type Error = ();

    fn try_from(value: i32) -> (r: Result<EvenNumber, ()>) {
        if value % 2 == 0 {
            Ok(EvenNumber(value))
        } else {
            Err(())
        }
    }
}

impl vstd::std_specs::convert::TryFromSpecImpl<i32> for EvenNumber {
    open spec fn obeys_try_from_spec() -> bool {
        true
    }

    open spec fn try_from_spec(value: i32) -> Result<EvenNumber, ()> {
        if value % 2 == 0 {
            Ok(EvenNumber(value))
        } else {
            Err(())
        }
    }
}

/// A circle, given by its radius.
pub struct Circle {
    pub radius: i32,
}

impl Circle {
    /// The text that describes this circle.
    pub open spec fn text(self) -> Seq<char> {
        "Circle of radius "@ + signed_decimal(self.radius as int)
    }

    /// The circle in words: `Circle of radius`, a space and the radius in
    /// decimal.
    pub fn to_string(&self) -> (text: String)
        ensures
            text@ == self.text(),
    {
        let mut text = String::from_str("Circle of radius ");
        push_signed_decimal(&mut text, self.radius as i64);
        text
    }
}

/// Does nothing.
pub fn senior_type_example() {
}

} // verus!
