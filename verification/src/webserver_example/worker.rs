use super::channel::ChannelState;
use super::message::Message;
use vstd::prelude::*;

verus! {

/// Where a worker's thread stands. A worker starts `Running` and leaves that
/// state once: by taking a `Terminate` message out of the channel, or by a
/// job that panicked under it.
#[derive(Clone, Copy, Debug, PartialEq, Eq, Structural)]
pub enum WorkerState {
    Running,
    Terminated,
    Panicked,
}

/// What a worker's thread has to do after it looked into the channel.
#[derive(Debug)]
pub enum Action<J> {
    /// Nothing waits: suspend until a message is sent, then look again.
    Wait,
    /// Invoke this job, once, on this thread, outside the channel's lock.
    Run(J),
    /// Leave the loop and let the thread function return.
    Exit,
}

/// What a running worker does with a message it has received.
pub open spec fn reaction<J>(message: Message<J>) -> Action<J> {
    match message {
        Message::NewJob(job) => Action::Run(job),
        Message::Terminate => Action::Exit,
    }
}

/// The state in which a running worker is after it has received `message`.
pub open spec fn state_after<J>(message: Message<J>) -> WorkerState {
    match message {
        Message::NewJob(_) => WorkerState::Running,
        Message::Terminate => WorkerState::Terminated,
    }
}

/// One turn of a worker's loop, on the worker's state and the channel:
/// the new state, the new channel and what the thread does next.
///
/// A running worker takes the oldest message, if one waits. A job leaves the
/// worker running; `Terminate` ends it and lets go of the consuming end. A
/// worker that is no longer running touches nothing.
pub open spec fn turn<J>(state: WorkerState, channel: ChannelState<J>) -> (
    WorkerState,
    ChannelState<J>,
    Action<J>,
) {
    if state is Running {
        match channel.front() {
            None => (state, channel, Action::Wait),
            Some(message) => (
                state_after(message),
                if message is Terminate {
                    channel.recv().release()
                } else {
                    channel.recv()
                },
                reaction(message),
            ),
        }
    } else {
        (state, channel, Action::Exit)
    }
}

/// A worker as the pool keeps it: its id, the handle of its thread, and
/// where that thread stands. The handle is there from the start and is moved
/// out once, at shutdown, by whoever is going to wait for the thread.
pub struct Worker<H> {
    pub id: usize,
    pub thread: Option<H>,
    pub state: WorkerState,
}

impl<H> Worker<H> {
    /// Worker `id`, whose thread has been started and answers to `thread`.
    pub fn new(id: usize, thread: H) -> (worker: Self)
        ensures
            worker.id == id,
            worker.thread == Some(thread),
            worker.state == WorkerState::Running,
    {
        Worker { id, thread: Some(thread), state: WorkerState::Running }
    }

    /// Moves the handle out and leaves the slot empty. A second call finds
    /// nothing.
    pub fn take_thread(&mut self) -> (thread: Option<H>)
        ensures
            thread == old(self).thread,
            final(self).thread is None,
            final(self).id == old(self).id,
            final(self).state == old(self).state,
    {
        self.thread.take()
    }

    /// The worker has received `message`: a job is to be run, `Terminate`
    /// ends the worker.
    pub fn handle<J>(&mut self, message: Message<J>) -> (action: Action<J>)
        requires
            old(self).state is Running,
        ensures
            final(self).id == old(self).id,
            final(self).thread == old(self).thread,
            final(self).state == state_after(message),
            action == reaction(message),
    {
        match message {
            Message::NewJob(job) => Action::Run(job),
            Message::Terminate => {
                self.state = WorkerState::Terminated;
                Action::Exit
            },
        }
    }
}

} // verus!
