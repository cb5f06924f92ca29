use crate::decimal::{decimal, push_decimal};
use vstd::prelude::*;
use vstd::string::*;

verus! {

/// A calculation whose result is kept once it has been worked out.
pub struct Cacher<T: Fn(u32) -> u32> {
    pub calculation: T,
    pub value: Option<u32>,
}

impl<T: Fn(u32) -> u32> Cacher<T> {
    /// A cacher for `calculation` that has not worked anything out yet.
    pub fn new(calculation: T) -> (cacher: Cacher<T>)
        ensures
            cacher.calculation == calculation,
            cacher.value is None,
    {
        Cacher { calculation, value: None }
    }

    /// The result: what was kept, whatever `arg` is, or, the first time,
    /// what the calculation makes of `arg`, which is then kept.
    pub fn value(&mut self, arg: u32) -> (v: u32)
        requires
            old(self).value is None ==> call_requires(old(self).calculation, (arg,)),
        ensures
            final(self).calculation == old(self).calculation,
            final(self).value == Some(v),
            old(self).value matches Some(kept) ==> v == kept,
            old(self).value is None ==> call_ensures(old(self).calculation, (arg,), v),
    {
        match self.value {
            Some(v) => v,
            None => {
                let v = (self.calculation)(arg);
                self.value = Some(v);
                v
            },
        }
    }
}

/// The calculation that a workout plan starts from: it gives back what it
/// was given.
pub fn calculation(num: u32) -> (r: u32)
    ensures
        r == num,
{
    num
}

/// `before`, a number in decimal and `after`, as one line.
pub open spec fn with_number(before: Seq<char>, number: nat, after: Seq<char>) -> Seq<char> {
    before + decimal(number) + after
}

/// The lines of the workout plan for an `intensity` and a number drawn at
/// random. A gentle day has pushups and situps, as many of each as the
/// intensity says. A hard day is a day off where the number drawn is three,
/// and a run of as many minutes as the intensity says otherwise. The
/// calculation is announced in a line of its own, once, before the first
/// line that needs it.
pub open spec fn workout(intensity: u32, random_number: u32) -> Seq<Seq<char>> {
    if intensity < 25 {
        seq![
            "calculating slowly..."@,
            with_number("Today, do "@, intensity as nat, " pushups!"@),
            with_number("Next, do "@, intensity as nat, " situps!"@),
        ]
    } else if random_number == 3 {
        seq!["Take a break today! Remember to stay hydrated!"@]
    } else {
        seq![
            "calculating slowly..."@,
            with_number("Today, run for "@, intensity as nat, " minutes!"@),
        ]
    }
}

/// One line round a number.
fn line(before: &str, number: u32, after: &str) -> (text: String)
    ensures
        text@ == with_number(before@, number as nat, after@),
{
    let mut text = String::from_str(before);
    push_decimal(&mut text, number as u64);
    text.append(after);
    text
}

/// Draws up the workout plan for an `intensity` and a number drawn at
/// random, and returns its lines.
pub fn generate_workout(intensity: u32, random_number: u32) -> (lines: Vec<String>)
    ensures
        lines.deep_view() == workout(intensity, random_number),
{
    let mut expensive_result = Cacher::new(calculation);
    let mut lines: Vec<String> = Vec::new();
    if intensity < 25 {
        lines.push(String::from_str("calculating slowly..."));
        let pushups = expensive_result.value(intensity);
        lines.push(line("Today, do ", pushups, " pushups!"));
        let situps = expensive_result.value(intensity);
        lines.push(line("Next, do ", situps, " situps!"));
    } else {
        if random_number == 3 {
            lines.push(String::from_str("Take a break today! Remember to stay hydrated!"));
        } else {
            lines.push(String::from_str("calculating slowly..."));
            let minutes = expensive_result.value(intensity);
            lines.push(line("Today, run for ", minutes, " minutes!"));
        }
    }
    assert(lines.deep_view() =~= workout(intensity, random_number));
    lines
}

} // verus!
