use crate::decimal::{decimal, push_decimal};
use vstd::prelude::*;
use vstd::string::*;

verus! {

/// The two kinds of internet address.
#[derive(Debug)]
pub enum IpAddrKind {
    V4,
    V6,
}

/// An internet address, with what its kind holds of it.
#[derive(Debug)]
pub enum IpAddr {
    V4(u8, u8, u8, u8),
    V6(String),
}

/// An order that a program may be given.
#[derive(Debug)]
pub enum Message {
    Quit,
    Move { x: i32, y: i32 },
    Write(String),
    ChangeColor(i32, i32, i32),
}

/// Something that happens on a page.
pub enum WebEvent {
    PageLoad,
    PageUnload,
    KeyPress(char),
    Paste(String),
    Click { x: i64, y: i64 },
}

/// The two things to do with numbers.
#[derive(Debug)]
pub enum VeryVerboseEnumOfThingsToDoWithNumbers {
    Add,
    Subtract,
}

/// A shorter name for the same.
pub type Operations = VeryVerboseEnumOfThingsToDoWithNumbers;

/// A list that is either empty or an element in front of a list.
pub enum List {
    Cons(u32, Box<List>),
    Nil,
}

impl List {
    /// The elements of the list, the first one at index 0.
    pub open spec fn elements(self) -> Seq<u32>
        decreases self,
    {
        match self {
            List::Cons(head, tail) => seq![head] + tail.elements(),
            List::Nil => Seq::empty(),
        }
    }

    /// The list in words.
    pub open spec fn text(self) -> Seq<char>
        decreases self,
    {
        match self {
            List::Cons(head, tail) => decimal(head as nat) + ", "@ + tail.text(),
            List::Nil => "Nil"@,
        }
    }

    /// The empty list.
    pub fn new() -> (list: List)
        ensures
            list.elements() == Seq::<u32>::empty(),
    {
        List::Nil
    }

    /// The list with `elem` in front of what it held.
    pub fn prepend(self, elem: u32) -> (list: List)
        ensures
            list.elements() == seq![elem] + self.elements(),
    {
        List::Cons(elem, Box::new(self))
    }

    /// The number of elements.
    pub fn len(&self) -> (n: u32)
        requires
            self.elements().len() <= u32::MAX,
        ensures
            n == self.elements().len(),
        decreases self,
    {
        match self {
            List::Cons(_, tail) => 1 + tail.len(),
            List::Nil => 0,
        }
    }

    /// The list in words: each element in decimal with a comma and a space
    /// behind it, then `Nil`.
    pub fn stringify(&self) -> (text: String)
        ensures
            text@ == self.text(),
        decreases self,
    {
        match self {
            List::Cons(head, tail) => {
                let mut text = String::new();
                push_decimal(&mut text, *head as u64);
                text.append(", ");
                let rest = tail.stringify();
                text.append(rest.as_str());
                assert(text@ =~= self.text());
                text
            },
            List::Nil => String::from_str("Nil"),
        }
    }
}

} // verus!
