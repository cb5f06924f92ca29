use crate::decimal::{decimal, push_decimal};
use vstd::prelude::*;
use vstd::string::*;

verus! {

/// Something that can be drawn.
pub trait Draw {
    /// What is drawn.
    spec fn drawing(&self) -> Seq<char>;

    /// Draws itself: returns the line that shows it.
    fn draw(&self) -> (line: String)
        ensures
            line@ == self.drawing(),
    ;
}

/// A screen: things that can be drawn, of whatever types.
pub struct Screen {
    pub components: Vec<Box<dyn Draw>>,
}

impl Screen {
    /// Draws every component, in order, and returns the lines.
    pub fn run(&self) -> (lines: Vec<String>)
        ensures
            lines@.len() == self.components@.len(),
            forall|i: int|
                0 <= i < lines@.len() ==> (#[trigger] lines@[i])@ == self.components@[i].drawing(),
    {
        let mut lines: Vec<String> = Vec::new();
        let mut i: usize = 0;
        while i < self.components.len()
            invariant
                i <= self.components@.len(),
                lines@.len() == i,
                forall|k: int|
                    0 <= k < i ==> (#[trigger] lines@[k])@ == self.components@[k].drawing(),
            decreases self.components@.len() - i,
        {
            let line = self.components[i].draw();
            lines.push(line);
            i = i + 1;
        }
        lines
    }
}

/// A button.
pub struct Button {
    pub width: u32,
    pub height: u32,
    pub label: String,
}

impl Draw for Button {
    open spec fn drawing(&self) -> Seq<char> {
        "width = "@ + decimal(self.width as nat) + ", height = "@ + decimal(self.height as nat)
            + ", label = "@ + self.label@
    }

    fn draw(&self) -> (line: String) {
        let mut line = String::from_str("width = ");
        push_decimal(&mut line, self.width as u64);
        line.append(", height = ");
        push_decimal(&mut line, self.height as u64);
        line.append(", label = ");
        line.append(self.label.as_str());
        line
    }
}

/// A list of texts as the standard library shows it for debugging.
pub uninterp spec fn debug_of(texts: Seq<Seq<char>>) -> Seq<char>;

/// Formats a list of texts with `{:?}`, by the `Debug` implementations of
/// the standard library. Nothing is claimed of the result but that it is the
/// one that this formatting gives for these texts.
#[verifier::external_body]
fn debug_list(texts: &Vec<String>) -> (shown: String)
    ensures
        shown@ == debug_of(texts.deep_view()),
{
    format!("{:?}", texts)
}

/// A box to select one of several options.
pub struct SelectBox {
    pub width: u32,
    pub height: u32,
    pub options: Vec<String>,
}

/// The line that shows a box of a width and a height whose options are
/// shown as `options`.
pub open spec fn select_box_line(width: u32, height: u32, options: Seq<char>) -> Seq<char> {
    "width = "@ + decimal(width as nat) + ", height = "@ + decimal(height as nat)
        + ", options = "@ + options
}

/// Puts the line together that shows a box of a width and a height whose
/// options are shown as `options`.
pub fn draw_select_box(width: u32, height: u32, options: &str) -> (line: String)
    ensures
        line@ == select_box_line(width, height, options@),
{
    let mut line = String::from_str("width = ");
    push_decimal(&mut line, width as u64);
    line.append(", height = ");
    push_decimal(&mut line, height as u64);
    line.append(", options = ");
    line.append(options);
    line
}

impl Draw for SelectBox {
    open spec fn drawing(&self) -> Seq<char> {
        select_box_line(self.width, self.height, debug_of(self.options.deep_view()))
    }

    fn draw(&self) -> (line: String) {
        let options = debug_list(&self.options);
        draw_select_box(self.width, self.height, options.as_str())
    }
}

} // verus!
