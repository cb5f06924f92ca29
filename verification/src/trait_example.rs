use std::cmp::Ordering;
use vstd::prelude::*;
use vstd::std_specs::cmp::PartialOrdSpec;
use vstd::string::*;

verus! {

/// Something of which a summary can be given.
pub trait Summary {
    /// The summary.
    spec fn summary(&self) -> Seq<char>;

    /// The summary.
    fn summarize(&self) -> (text: String)
        ensures
            text@ == self.summary(),
    ;

    /// An invitation to read more, round the summary.
    fn summarize2(&self) -> (text: String)
        ensures
            text@ == "(Read more from "@ + self.summary() + "...)"@,
    {
        let mut text = String::from_str("(Read more from ");
        let summary = self.summarize();
        text.append(summary.as_str());
        text.append("...)");
        text
    }
}

/// An article in a newspaper.
#[derive(Clone)]
pub struct NewsArticle {
    pub headline: String,
    pub location: String,
    pub author: String,
    pub content: String,
}

impl Summary for NewsArticle {
    open spec fn summary(&self) -> Seq<char> {
        self.headline@ + ", by "@ + self.author@ + " ("@ + self.location@ + ")"@
    }

    fn summarize(&self) -> (text: String) {
        let mut text = String::from_str(self.headline.as_str());
        text.append(", by ");
        text.append(self.author.as_str());
        text.append(" (");
        text.append(self.location.as_str());
        text.append(")");
        text
    }
}

/// A short public note.
#[derive(Clone, Debug)]
pub struct Tweet {
    pub username: String,
    pub content: String,
    pub reply: bool,
    pub retweet: bool,
}

impl Summary for Tweet {
    open spec fn summary(&self) -> Seq<char> {
        self.username@ + ": "@ + self.content@
    }

    fn summarize(&self) -> (text: String) {
        let mut text = String::from_str(self.username.as_str());
        text.append(": ");
        text.append(self.content.as_str());
        text
    }
}

/// The news of `item`: `Breaking news!`, a space and its summary.
pub fn notify<T: Summary>(item: &T) -> (text: String)
    ensures
        text@ == "Breaking news! "@ + item.summary(),
{
    let mut text = String::from_str("Breaking news! ");
    let summary = item.summarize();
    text.append(summary.as_str());
    text
}

/// The summaries of two items of one type, each behind what says which it
/// is.
pub fn notify2<T: Summary>(item1: &T, item2: &T) -> (text: String)
    ensures
        text@ == "notify2: item1.summarize() = "@ + item1.summary() + ", item2.summarize() = "@
            + item2.summary(),
{
    let mut text = String::from_str("notify2: item1.summarize() = ");
    let first = item1.summarize();
    text.append(first.as_str());
    text.append(", item2.summarize() = ");
    let second = item2.summarize();
    text.append(second.as_str());
    text
}

/// The summary of `item` behind a note of where it comes from.
pub fn notify3<T: Summary>(item: &T) -> (text: String)
    ensures
        text@ == "notify4 item "@ + item.summary(),
{
    let mut text = String::from_str("notify4 item ");
    let summary = item.summarize();
    text.append(summary.as_str());
    text
}

/// One, whatever it is given.
pub fn some_function<T: Clone, U: Clone>(t: T, u: U) -> (r: i32)
    ensures
        r == 1,
{
    1
}

/// Something of which a summary can be given: a note by `horse_ebooks`.
pub fn returns_summarizable() -> (item: impl Summary)
    ensures
        item.summary() == "horse_ebooks"@ + ": "@
            + "of course, as you probably already know, people"@,
{
    Tweet {
        username: String::from_str("horse_ebooks"),
        content: String::from_str("of course, as you probably already know, people"),
        reply: false,
        retweet: false,
    }
}

/// The largest element of a list, found as one goes through it from the
/// front and keeps an element wherever it is greater than the one kept so
/// far.
pub open spec fn largest_of<T: PartialOrd>(list: Seq<T>) -> T
    decreases list.len(),
{
    if list.len() <= 1 {
        list[0]
    } else {
        let kept = largest_of(list.drop_last());
        if list.last().partial_cmp_spec(&kept) == Some(Ordering::Greater) {
            list.last()
        } else {
            kept
        }
    }
}

/// The largest element of a list that is not empty: one of its elements,
/// and, for a type whose comparison is known, the one that `largest_of`
/// names.
pub fn largest<T: PartialOrd + Copy>(list: &[T]) -> (largest: T)
    requires
        list@.len() > 0,
    ensures
        list@.contains(largest),
        T::obeys_partial_cmp_spec() ==> largest == largest_of(list@),
{
    let mut largest = list[0];
    let mut i: usize = 1;
    let ghost mut seen: int = 1;
    assert(list@.take(1).len() == 1);
    while i < list.len()
        invariant
            1 <= i <= list@.len(),
            seen == i,
            list@.contains(largest),
            T::obeys_partial_cmp_spec() ==> largest == largest_of(list@.take(seen)),
        decreases list@.len() - i,
    {
        let item = list[i];
        proof {
            let before = list@.take(seen);
            let after = list@.take(seen + 1);
            assert(after.drop_last() =~= before);
            assert(after.last() == item);
            seen = seen + 1;
        }
        if item > largest {
            largest = item;
        }
        i = i + 1;
    }
    assert(list@.take(seen) =~= list@);
    largest
}

/// Two values of one type.
pub struct Pair<T> {
    pub x: T,
    pub y: T,
}

impl<T> Pair<T> {
    /// The pair of `x` and `y`.
    pub fn new(x: T, y: T) -> (pair: Self)
        ensures
            pair.x == x,
            pair.y == y,
    {
        Self { x, y }
    }
}

} // verus!
