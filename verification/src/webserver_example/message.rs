use vstd::prelude::*;

verus! {

/// A unit of work: something that is called once, with no argument and no
/// result, and that may be handed to another thread.
pub type Job = Box<dyn FnOnce() + Send + 'static>;

/// What travels through the dispatch channel: one unit of work, owned by the
/// message, or the order for the worker that receives it to leave its loop.
pub enum Message<J> {
    NewJob(J),
    Terminate,
}

/// `count` copies of `Terminate`.
pub open spec fn terminates<J>(count: nat) -> Seq<Message<J>> {
    Seq::new(count, |i: int| Message::Terminate)
}

} // verus!
