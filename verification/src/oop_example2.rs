use vstd::prelude::*;
use vstd::string::*;

verus! {

/// How far a post has come on its way to its readers, and with that how it
/// behaves.
#[derive(Clone, Copy, Debug, PartialEq, Eq, Structural)]
pub enum State {
    Draft,
    PendingReview,
    Published,
}

/// What a post in `state` shows of its text: all of it once it is published,
/// nothing before.
pub open spec fn shown(state: State, text: Seq<char>) -> Seq<char> {
    match state {
        State::Published => text,
        _ => Seq::empty(),
    }
}

impl State {
    /// The state after a review was asked for: a draft goes to review,
    /// everything else stays where it is.
    pub open spec fn after_request(self) -> State {
        match self {
            State::Draft => State::PendingReview,
            other => other,
        }
    }

    /// The state after an approval: a post under review is published,
    /// everything else stays where it is.
    pub open spec fn after_approval(self) -> State {
        match self {
            State::PendingReview => State::Published,
            other => other,
        }
    }

    /// The state after a review was asked for.
    pub fn request_review(self) -> (next: State)
        ensures
            next == self.after_request(),
    {
        match self {
            State::Draft => State::PendingReview,
            other => other,
        }
    }

    /// The state after an approval.
    pub fn approve(self) -> (next: State)
        ensures
            next == self.after_approval(),
    {
        match self {
            State::PendingReview => State::Published,
            other => other,
        }
    }

    /// What a post in this state shows of `text`.
    pub fn content<'a>(&self, text: &'a str) -> (seen: &'a str)
        ensures
            seen@ == shown(*self, text@),
    {
        match self {
            State::Published => text,
            _ => {
                proof {
                    reveal_strlit("");
                }
                ""
            },
        }
    }
}

/// A post: its text, and the state that decides what is shown of it.
pub struct Post {
    state: State,
    content: String,
}

impl Post {
    /// The state that the post has reached.
    pub closed spec fn state(&self) -> State {
        self.state
    }

    /// Everything that was written into the post.
    pub closed spec fn text(&self) -> Seq<char> {
        self.content@
    }

    /// An empty draft.
    pub fn new() -> (post: Post)
        ensures
            post.state() == State::Draft,
            post.text() == Seq::<char>::empty(),
    {
        Post { state: State::Draft, content: String::new() }
    }

    /// Writes `text` at the end of the post.
    pub fn add_text(&mut self, text: &str)
        ensures
            final(self).state() == old(self).state(),
            final(self).text() == old(self).text() + text@,
    {
        self.content.append(text);
    }

    /// What the post shows: its text once it is published, nothing before.
    pub fn content(&self) -> (seen: &str)
        ensures
            seen@ == shown(self.state(), self.text()),
    {
        self.state.content(self.content.as_str())
    }

    /// Asks for a review of the post.
    pub fn request_review(&mut self)
        ensures
            final(self).state() == old(self).state().after_request(),
            final(self).text() == old(self).text(),
    {
        self.state = self.state.request_review();
    }

    /// Approves the post.
    pub fn approve(&mut self)
        ensures
            final(self).state() == old(self).state().after_approval(),
            final(self).text() == old(self).text(),
    {
        self.state = self.state.approve();
    }
}

} // verus!
