use vstd::prelude::*;
use vstd::string::*;

verus! {

/// The one of two texts that takes more bytes: `x` where it is longer than
/// `y`, `y` otherwise.
pub fn longest<'a>(x: &'a str, y: &'a str) -> (r: &'a str)
    ensures
        r == (if x.spec_bytes().len() > y.spec_bytes().len() {
            x
        } else {
            y
        }),
{
    if x.as_bytes().len() > y.as_bytes().len() {
        x
    } else {
        y
    }
}

/// The first of two texts.
pub fn longest2<'a>(x: &'a str, y: &str) -> (r: &'a str)
    ensures
        r == x,
{
    x
}

/// A passage of a longer text.
#[derive(Debug)]
pub struct ImportantExcerpt<'a> {
    pub part: &'a str,
}

impl<'a> ImportantExcerpt<'a> {
    /// How important the passage is: three.
    pub fn level(&self) -> (level: i32)
        ensures
            level == 3,
    {
        3
    }

    /// The passage, after whatever was announced.
    pub fn announce_and_return_part(&self, announcement: &str) -> (part: &str)
        ensures
            part == self.part,
    {
        self.part
    }
}

/// The one of two texts that takes more bytes, after `ann` was announced:
/// `x` where it is longer than `y`, `y` otherwise.
pub fn longest_with_an_announcement<'a, T>(x: &'a str, y: &'a str, ann: T) -> (r: &'a str)
    ensures
        r == (if x.spec_bytes().len() > y.spec_bytes().len() {
            x
        } else {
            y
        }),
{
    if x.as_bytes().len() > y.as_bytes().len() {
        x
    } else {
        y
    }
}

} // verus!
