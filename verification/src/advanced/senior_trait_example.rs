use crate::decimal::{push_signed_decimal, signed_decimal};
use vstd::prelude::*;
use vstd::string::*;

verus! {

/// Something that hands out its items one at a time, until it has no more.
pub trait Iterator {
    type Item;

    fn next(&mut self) -> Option<Self::Item>;
}

/// A point of the plane.
#[derive(Debug, PartialEq)]
pub struct Point {
    pub x: i32,
    pub y: i32,
}

impl core::ops::Add for Point {
    type Output = Point;

    fn add(self, other: Point) -> (sum: Point) {
        Point { x: self.x + other.x, y: self.y + other.y }
    }
}

impl vstd::std_specs::ops::AddSpecImpl for Point {
    open spec fn obeys_add_spec() -> bool {
        true
    }

    open spec fn add_req(self, other: Point) -> bool {
        &&& i32::MIN <= self.x + other.x <= i32::MAX
        &&& i32::MIN <= self.y + other.y <= i32::MAX
    }

    open spec fn add_spec(self, other: Point) -> Point {
        Point { x: (self.x + other.x) as i32, y: (self.y + other.y) as i32 }
    }
}

/// A length in millimetres.
#[derive(Debug)]
pub struct Millimeters(pub u32);

/// A length in metres.
#[derive(Debug)]
pub struct Meters(pub u32);

impl core::ops::Add<Meters> for Millimeters {
    type Output = Millimeters;

    fn add(self, other: Meters) -> (sum: Millimeters) {
        Millimeters(self.0 + (other.0 * 1000))
    }
}

impl vstd::std_specs::ops::AddSpecImpl<Meters> for Millimeters {
    open spec fn obeys_add_spec() -> bool {
        true
    }

    open spec fn add_req(self, other: Meters) -> bool {
        self.0 + other.0 * 1000 <= u32::MAX
    }

    open spec fn add_spec(self, other: Meters) -> Millimeters {
        Millimeters((self.0 + other.0 * 1000) as u32)
    }
}

/// Someone who flies an aircraft.
pub trait Pilot {
    /// What is said when this pilot takes off.
    fn fly(&self) -> String;
}

/// Someone who flies without one.
pub trait Wizard {
    /// What is said when this wizard takes off.
    fn fly(&self) -> String;
}

/// A person: a pilot, a wizard, and someone with arms.
pub struct Human;

impl Pilot for Human {
    fn fly(&self) -> (said: String)
        ensures
            said@ == "This is your captain speaking."@,
    {
        String::from_str("This is your captain speaking.")
    }
}

impl Wizard for Human {
    fn fly(&self) -> (said: String)
        ensures
            said@ == "Up!"@,
    {
        String::from_str("Up!")
    }
}

impl Human {
    /// What a human does who tries to fly unaided.
    pub fn fly(&self) -> (said: String)
        ensures
            said@ == "*waving arms furiously*"@,
    {
        String::from_str("*waving arms furiously*")
    }
}

/// `unit`, `count` times over.
pub open spec fn repeated(unit: Seq<char>, count: nat) -> Seq<char>
    decreases count,
{
    if count == 0 {
        Seq::empty()
    } else {
        repeated(unit, (count - 1) as nat) + unit
    }
}

/// `text` in a frame of asterisks that is laid out for a text of `width`
/// columns: a border, a line of padding, the text between an asterisk and a
/// space on either side, and padding and border again.
pub open spec fn outlined(text: Seq<char>, width: nat) -> Seq<Seq<char>> {
    seq![
        repeated(seq!['*'], width + 4),
        seq!['*'] + repeated(seq![' '], width + 2) + seq!['*'],
        seq!['*', ' '] + text + seq![' ', '*'],
        seq!['*'] + repeated(seq![' '], width + 2) + seq!['*'],
        repeated(seq!['*'], width + 4),
    ]
}

/// Repeating comes to the same from either end.
proof fn lemma_repeated_front(unit: Seq<char>, count: nat)
    ensures
        repeated(unit, count + 1) == unit + repeated(unit, count),
    decreases count,
{
    if count == 0 {
        assert(repeated(unit, 1) =~= unit + repeated(unit, 0)) by {
            assert(repeated(unit, 1) == repeated(unit, 0) + unit);
        }
    } else {
        lemma_repeated_front(unit, (count - 1) as nat);
        assert(repeated(unit, count + 1) == repeated(unit, count) + unit);
        assert(repeated(unit, count) == unit + repeated(unit, (count - 1) as nat));
        assert(repeated(unit, count + 1) =~= unit + repeated(unit, count));
    }
}

/// Appends `unit` to `text`, `count` times.
pub fn push_repeated(text: &mut String, unit: &str, count: usize)
    ensures
        final(text)@ == old(text)@ + repeated(unit@, count as nat),
{
    let mut done: usize = 0;
    assert(text@ =~= old(text)@ + repeated(unit@, 0));
    while done < count
        invariant
            done <= count,
            text@ == old(text)@ + repeated(unit@, done as nat),
        decreases count - done,
    {
        text.append(unit);
        done = done + 1;
        assert(text@ =~= old(text)@ + repeated(unit@, done as nat));
    }
}

/// A longer repetition is a shorter one with the rest of the units in front.
proof fn lemma_repeated_split(unit: Seq<char>, front: nat, count: nat)
    ensures
        repeated(unit, front + count) == repeated(unit, front) + repeated(unit, count),
    decreases front,
{
    if front == 0 {
        assert(repeated(unit, count) =~= repeated(unit, 0) + repeated(unit, count));
    } else {
        lemma_repeated_split(unit, (front - 1) as nat, count);
        lemma_repeated_front(unit, (front - 1) as nat);
        lemma_repeated_front(unit, (front - 1 + count) as nat);
        assert(repeated(unit, front + count) =~= repeated(unit, front) + repeated(unit, count));
    }
}

/// The border of a frame round a text of `width` columns.
fn border(width: usize) -> (line: String)
    ensures
        line@ == repeated(seq!['*'], width as nat + 4),
{
    let mut line = String::new();
    push_repeated(&mut line, "*", 4);
    push_repeated(&mut line, "*", width);
    proof {
        reveal_strlit("*");
        assert("*"@ =~= seq!['*']);
        lemma_repeated_split(seq!['*'], 4, width as nat);
        assert(line@ =~= repeated(seq!['*'], 4) + repeated(seq!['*'], width as nat));
    }
    line
}

/// The line of padding of a frame round a text of `width` columns.
fn padding(width: usize) -> (line: String)
    ensures
        line@ == seq!['*'] + repeated(seq![' '], width as nat + 2) + seq!['*'],
{
    let mut line = String::from_str("*");
    push_repeated(&mut line, " ", 2);
    push_repeated(&mut line, " ", width);
    line.append("*");
    proof {
        reveal_strlit("*");
        reveal_strlit(" ");
        assert("*"@ =~= seq!['*']);
        assert(" "@ =~= seq![' ']);
        lemma_repeated_split(seq![' '], 2, width as nat);
        assert(line@ =~= seq!['*'] + (repeated(seq![' '], 2) + repeated(seq![' '], width as nat))
            + seq!['*']);
    }
    line
}

/// Frames `output` with asterisks, for as many columns as it has bytes, and
/// returns the five lines of the frame from top to bottom.
pub fn outline(output: &str) -> (lines: Vec<String>)
    ensures
        lines.deep_view() == outlined(output@, output.spec_bytes().len()),
{
    let width = output.as_bytes().len();
    proof {
        reveal_strlit("* ");
        reveal_strlit(" *");
    }
    let mut middle = String::from_str("* ");
    middle.append(output);
    middle.append(" *");
    assert(middle@ =~= seq!['*', ' '] + output@ + seq![' ', '*']);
    let mut lines: Vec<String> = Vec::new();
    lines.push(border(width));
    lines.push(padding(width));
    lines.push(middle);
    lines.push(padding(width));
    lines.push(border(width));
    assert(lines.deep_view() =~= outlined(output@, output.spec_bytes().len()));
    lines
}

/// Something that can show itself in a frame of asterisks.
pub trait OutlinePrint {
    /// The five lines of the frame, from top to bottom.
    fn outline_print(&self) -> Vec<String>;
}

impl Point {
    /// The text that shows this point: both coordinates in decimal, in
    /// round brackets, with a comma and a space between them.
    pub open spec fn text(self) -> Seq<char> {
        seq!['('] + signed_decimal(self.x as int) + seq![',', ' '] + signed_decimal(
            self.y as int,
        ) + seq![')']
    }

    /// The point as text.
    pub fn to_string(&self) -> (text: String)
        ensures
            text@ == self.text(),
    {
        proof {
            reveal_strlit("(");
            reveal_strlit(", ");
            reveal_strlit(")");
        }
        let mut text = String::from_str("(");
        push_signed_decimal(&mut text, self.x as i64);
        text.append(", ");
        push_signed_decimal(&mut text, self.y as i64);
        text.append(")");
        assert(text@ =~= self.text());
        text
    }
}

impl OutlinePrint for Point {
    fn outline_print(&self) -> (lines: Vec<String>)
        ensures
            lines.deep_view() == outlined(
                self.text(),
                vstd::utf8::encode_utf8(self.text()).len(),
            ),
    {
        let output = self.to_string();
        outline(output.as_str())
    }
}

} // verus!
