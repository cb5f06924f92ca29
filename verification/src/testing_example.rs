use vstd::prelude::*;
use vstd::string::*;

verus! {

/// A rectangle with sides parallel to the axes.
#[derive(Debug)]
pub struct Rectangle {
    pub width: u32,
    pub height: u32,
}

impl Rectangle {
    /// Whether `other` fits into this rectangle with room to spare on every
    /// side: this one is both wider and higher.
    pub fn can_hold(&self, other: &Rectangle) -> (fits: bool)
        ensures
            fits == (self.width > other.width && self.height > other.height),
    {
        self.width > other.width && self.height > other.height
    }
}

/// The number two after `a`.
pub fn add_two(a: i32) -> (r: i32)
    requires
        a + 2 <= i32::MAX,
    ensures
        r == a + 2,
{
    a + 2
}

/// A greeting for `name`: `Hello`, a space, the name and an exclamation mark.
pub fn greeting(name: &str) -> (text: String)
    ensures
        text@ == "Hello "@ + name@ + "!"@,
{
    let mut text = String::from_str("Hello ");
    text.append(name);
    text.append("!");
    text
}

/// A guess in the game of numbers: a number from 1 to 100.
pub struct Guess {
    value: i32,
}

impl Guess {
    #[verifier::type_invariant]
    spec fn in_range(self) -> bool {
        1 <= self.value <= 100
    }

    /// The number that was guessed.
    pub closed spec fn number(self) -> int {
        self.value as int
    }

    /// A guess of `value`, which lies between 1 and 100.
    pub fn new(value: i32) -> (guess: Guess)
        requires
            1 <= value <= 100,
        ensures
            guess.number() == value,
    {
        Guess { value }
    }

    /// The number that was guessed.
    pub fn value(&self) -> (value: i32)
        ensures
            value == self.number(),
            1 <= value <= 100,
    {
        proof {
            use_type_invariant(self);
        }
        self.value
    }
}

/// Ten, whatever `a` is.
pub fn prints_and_returns_10(a: i32) -> (r: i32)
    ensures
        r == 10,
{
    10
}

} // verus!
