use vstd::prelude::*;

verus! {

/// Something that hands out its items one at a time, until it has no more.
pub trait Iterator {
    type Item;

    fn next(&mut self) -> Option<Self::Item>;
}

/// A shoe.
#[derive(PartialEq, Debug)]
pub struct Shoe {
    pub size: u32,
    pub style: String,
}

/// The shoes among `shoes` that have the size `shoe_size`, in the order in
/// which they came.
pub fn shoes_in_my_size(shoes: Vec<Shoe>, shoe_size: u32) -> (fitting: Vec<Shoe>)
    ensures
        fitting@ == shoes@.filter(|shoe: Shoe| shoe.size == shoe_size),
{
    let ghost fits = |shoe: Shoe| shoe.size == shoe_size;
    let mut fitting: Vec<Shoe> = Vec::new();
    assert(shoes@.take(0).filter(fits) =~= Seq::<Shoe>::empty());
    for shoe in iter: shoes
        invariant
            iter.seq() == shoes@,
            fits == (|shoe: Shoe| shoe.size == shoe_size),
            fitting@ == shoes@.take(iter.index() as int).filter(fits),
    {
        proof {
            let before = shoes@.take(iter.index() as int);
            let after = shoes@.take(iter.index() as int + 1);
            assert(after =~= before.push(shoe));
            assert(after.drop_last() =~= before);
            reveal(Seq::filter);
        }
        if shoe.size == shoe_size {
            fitting.push(shoe);
        }
    }
    assert(shoes@.take(shoes@.len() as int) =~= shoes@);
    fitting
}

/// A counter that counts from one to five.
pub struct Counter {
    count: u32,
}

impl Counter {
    /// How often the counter has been asked.
    pub closed spec fn count(&self) -> nat {
        self.count as nat
    }

    /// A counter that has not been asked yet.
    pub fn new() -> (counter: Counter)
        ensures
            counter.count() == 0,
    {
        Counter { count: 0 }
    }

    /// The next number: one more than the time before, as long as that is
    /// below six, and nothing from then on.
    pub fn next(&mut self) -> (item: Option<u32>)
        requires
            old(self).count() < u32::MAX,
        ensures
            final(self).count() == old(self).count() + 1,
            final(self).count() < 6 ==> item == Some(final(self).count() as u32),
            final(self).count() >= 6 ==> item is None,
    {
        self.count += 1;
        if self.count < 6 {
            Some(self.count)
        } else {
            None
        }
    }
}

} // verus!
