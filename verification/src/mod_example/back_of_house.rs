use vstd::prelude::*;
use vstd::string::*;

verus! {

/// A breakfast. The guest chooses the toast; the fruit is the cook's choice.
pub struct Breakfast {
    pub toast: String,
    seasonal_fruit: String,
}

impl Breakfast {
    /// The toast of this breakfast.
    pub closed spec fn bread(self) -> Seq<char> {
        self.toast@
    }

    /// The fruit that comes with this breakfast.
    pub closed spec fn fruit(self) -> Seq<char> {
        self.seasonal_fruit@
    }

    /// A summer breakfast with the toast that the guest asked for, and
    /// peaches.
    pub fn summer(toast: &str) -> (meal: Breakfast)
        ensures
            meal.bread() == toast@,
            meal.fruit() == "peaches"@,
    {
        Breakfast { toast: String::from_str(toast), seasonal_fruit: String::from_str("peaches") }
    }

    /// The fruit that comes with this breakfast.
    pub fn get_seasonal_fruit(&self) -> (fruit: &str)
        ensures
            fruit@ == self.fruit(),
    {
        self.seasonal_fruit.as_str()
    }
}

/// What may come first.
#[derive(Debug)]
pub enum Appetizer {
    Soup,
    Salad,
}

} // verus!
