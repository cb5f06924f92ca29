use super::message::Message;
use std::collections::VecDeque;
use vstd::prelude::*;

verus! {

/// The mathematical state of a dispatch channel.
///
/// The channel is described by its whole history: every message it ever
/// accepted, in the order of the sends, and how many of them were handed out.
/// What is still queued is the rest of that history.
pub struct ChannelState<J> {
    /// Every message accepted so far, oldest first.
    pub sent: Seq<Message<J>>,
    /// How many of them have been handed to a worker.
    pub received: nat,
    /// How many workers still hold the consuming end.
    pub consumers: nat,
}

impl<J> ChannelState<J> {
    /// A fresh channel that `consumers` workers are going to share.
    pub open spec fn init(consumers: nat) -> Self {
        ChannelState { sent: Seq::empty(), received: 0, consumers }
    }

    /// No more was handed out than was accepted.
    pub open spec fn wf(self) -> bool {
        self.received <= self.sent.len()
    }

    /// The messages that wait in the queue, the next one to leave at index 0.
    pub open spec fn pending(self) -> Seq<Message<J>> {
        self.sent.skip(self.received as int)
    }

    /// Some worker still holds the consuming end, so a send is accepted.
    pub open spec fn connected(self) -> bool {
        self.consumers > 0
    }

    /// The message that the next receive hands out, if one waits.
    pub open spec fn front(self) -> Option<Message<J>> {
        if self.received < self.sent.len() {
            Some(self.sent[self.received as int])
        } else {
            None
        }
    }

    /// The state after a send: the message joins the end of the history,
    /// unless nobody is left to receive it.
    pub open spec fn send(self, message: Message<J>) -> Self {
        if self.connected() {
            ChannelState { sent: self.sent.push(message), ..self }
        } else {
            self
        }
    }

    /// The state after `messages` were sent one after the other, while some
    /// worker held the consuming end.
    pub open spec fn send_all(self, messages: Seq<Message<J>>) -> Self {
        if self.connected() {
            ChannelState { sent: self.sent + messages, ..self }
        } else {
            self
        }
    }

    /// The state after a receive: one more message counts as handed out,
    /// unless the queue was empty.
    pub open spec fn recv(self) -> Self {
        if self.received < self.sent.len() {
            ChannelState { received: self.received + 1, ..self }
        } else {
            self
        }
    }

    /// The state after one worker let go of the consuming end.
    pub open spec fn release(self) -> Self {
        if self.consumers > 0 {
            ChannelState { consumers: (self.consumers - 1) as nat, ..self }
        } else {
            self
        }
    }
}

/// The queue between the submitters and the workers: unbounded, first in
/// first out, with no priority and no deduplication.
///
/// It does no locking of its own. Whoever shares it among threads guards it
/// with a lock and holds that lock for one call at a time; `&mut self` is
/// then the proof of exclusive access, which is what hands each message to
/// one receiver only.
pub struct DispatchChannel<J> {
    queue: VecDeque<Message<J>>,
    consumers: usize,
    sent: Ghost<Seq<Message<J>>>,
    received: Ghost<nat>,
}

impl<J> View for DispatchChannel<J> {
    type V = ChannelState<J>;

    closed spec fn view(&self) -> ChannelState<J> {
        ChannelState { sent: self.sent@, received: self.received@, consumers: self.consumers as nat }
    }
}

impl<J> DispatchChannel<J> {
    /// The queue holds exactly the part of the history not yet handed out.
    pub closed spec fn wf(&self) -> bool {
        &&& self.received@ <= self.sent@.len()
        &&& self.queue@ == self.sent@.skip(self.received@ as int)
    }

    /// An empty channel whose consuming end `consumers` workers share.
    pub fn new(consumers: usize) -> (channel: Self)
        ensures
            channel.wf(),
            channel@ == ChannelState::<J>::init(consumers as nat),
    {
        let channel = DispatchChannel {
            queue: VecDeque::new(),
            consumers,
            sent: Ghost(Seq::empty()),
            received: Ghost(0),
        };
        assert(channel.queue@ =~= channel.sent@.skip(0));
        channel
    }

    /// Puts `message` at the end of the queue and returns at once: there is
    /// no capacity to wait for. When no worker holds the consuming end any
    /// more, the message is handed back instead.
    pub fn send(&mut self, message: Message<J>) -> (r: Result<(), Message<J>>)
        requires
            old(self).wf(),
        ensures
            final(self).wf(),
            final(self)@ == old(self)@.send(message),
            old(self)@.connected() ==> r == Ok::<(), Message<J>>(()),
            !old(self)@.connected() ==> r == Err::<(), Message<J>>(message),
    {
        if self.consumers == 0 {
            return Err(message);
        }
        let ghost before = self.sent@;
        self.sent = Ghost(before.push(message));
        self.queue.push_back(message);
        assert(self.queue@ =~= self.sent@.skip(self.received@ as int));
        Ok(())
    }

    /// Takes the oldest waiting message out of the queue, or returns `None`
    /// when nothing waits (where a blocking receive would suspend).
    pub fn recv(&mut self) -> (r: Option<Message<J>>)
        requires
            old(self).wf(),
        ensures
            final(self).wf(),
            final(self)@ == old(self)@.recv(),
            r == old(self)@.front(),
    {
        let r = self.queue.pop_front();
        if r.is_some() {
            self.received = Ghost((self.received@ + 1) as nat);
            assert(self.queue@ =~= self.sent@.skip(self.received@ as int));
        }
        r
    }

    /// One worker lets go of the consuming end.
    pub fn release(&mut self)
        requires
            old(self).wf(),
        ensures
            final(self).wf(),
            final(self)@ == old(self)@.release(),
    {
        if self.consumers > 0 {
            self.consumers = self.consumers - 1;
        }
    }

    /// Whether a send would be accepted.
    pub fn is_connected(&self) -> (r: bool)
        ensures
            r == self@.connected(),
    {
        self.consumers > 0
    }

    /// The number of messages that wait in the queue.
    pub fn len(&self) -> (n: usize)
        requires
            self.wf(),
        ensures
            n == self@.pending().len(),
    {
        self.queue.len()
    }

    /// Whether no message waits in the queue.
    pub fn is_empty(&self) -> (r: bool)
        requires
            self.wf(),
        ensures
            r == (self@.pending().len() == 0),
    {
        self.queue.len() == 0
    }
}

} // verus!
