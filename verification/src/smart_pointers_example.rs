use vstd::prelude::*;
use vstd::string::*;

verus! {

/// A list that is either empty or a number in front of a list, which it
/// owns.
#[derive(Debug)]
pub enum List {
    Cons(i32, Box<List>),
    Nil,
}

/// A box of one's own: it holds a value and gives it out by reference.
pub struct MyBox<T>(pub T);

impl<T> MyBox<T> {
    /// A box that holds `x`.
    pub fn new(x: T) -> (boxed: MyBox<T>)
        ensures
            boxed.0 == x,
    {
        MyBox(x)
    }
}

impl<T> core::ops::Deref for MyBox<T> {
    type Target = T;

    fn deref(&self) -> (inner: &T)
        ensures
            *inner == self.0,
    {
        &self.0
    }
}

/// A greeting for `name`: `Hello`, a comma and a space, the name and an
/// exclamation mark.
pub fn hello(name: &str) -> (text: String)
    ensures
        text@ == "Hello, "@ + name@ + "!"@,
{
    let mut text = String::from_str("Hello, ");
    text.append(name);
    text.append("!");
    text
}

/// Some data that is owned in one place.
#[derive(Debug)]
pub struct CustomSmartPointer {
    pub data: String,
}

/// A list that is either empty or a number in front of a list, which it may
/// share with others.
#[derive(Debug)]
pub enum List2 {
    Cons(i32, std::rc::Rc<List2>),
    Nil,
}

} // verus!
