use super::channel::DispatchChannel;
use super::message::{terminates, Message};
use super::protocol::{lemma_run_push, Event, PoolState};
use super::worker::{turn, Action, Worker, WorkerState};
use vstd::prelude::*;

verus! {

/// What the owner of a pool has to do next to shut it down.
#[derive(Debug)]
pub enum ShutdownStep<H> {
    /// Every worker has just been told to stop: one `Terminate` for each is
    /// on the channel. Wake the workers that wait for a message.
    Signalled,
    /// Wait for the thread of this worker, which this handle answers to.
    Join(usize, H),
    /// Every thread has been waited for.
    Done,
}

/// A fixed set of workers behind one channel. The number of workers is
/// chosen at construction and never changes.
///
/// The pool does no locking and starts no thread of its own. A program
/// that shares it among threads guards it with a lock, holds that lock for
/// one call at a time, and runs a job or waits for a thread with the lock
/// released.
pub struct ThreadPool<J, H> {
    workers: Vec<Worker<H>>,
    channel: DispatchChannel<J>,
    stopping: bool,
    joined: usize,
    trace: Ghost<Seq<Event<J>>>,
}

impl<J, H> View for ThreadPool<J, H> {
    type V = PoolState<J>;

    /// The pool as the protocol sees it: what its construction and
    /// everything that has happened to it since have made of it.
    closed spec fn view(&self) -> PoolState<J> {
        PoolState::init(self.workers@.len()).run(self.trace@)
    }
}

impl<J, H> ThreadPool<J, H> {
    /// Everything that has happened to the pool since its construction.
    pub closed spec fn trace(&self) -> Seq<Event<J>> {
        self.trace@
    }

    /// The handle of each worker's thread, by worker id, as far as it has
    /// not been handed out.
    pub closed spec fn handles(&self) -> Seq<Option<H>> {
        Seq::new(self.workers@.len(), |i: int| self.workers@[i].thread)
    }

    /// How many handles have been handed out.
    pub closed spec fn joined(&self) -> nat {
        self.joined as nat
    }

    /// What the pool holds is what the protocol says it holds. Worker `i`
    /// has id `i`. The handles are handed out lowest id first, and none
    /// before shutdown has begun.
    pub closed spec fn wf(&self) -> bool {
        &&& self.workers@.len() > 0
        &&& self.channel.wf()
        &&& self.channel@ == self@.channel
        &&& self.stopping == self@.stopping
        &&& self@.workers.len() == self.workers@.len()
        &&& forall|i: int|
            0 <= i < self.workers@.len() ==> {
                &&& (#[trigger] self.workers@[i]).id == i
                &&& self.workers@[i].state == self@.workers[i]
                &&& self.workers@[i].thread is Some <==> i >= self.joined
            }
        &&& self.joined <= self.workers@.len()
        &&& self.joined > 0 ==> self.stopping
    }

    /// A pool is what its construction and its events have made of it, it
    /// has as many handles as workers, and at least one worker.
    pub proof fn lemma_wf(&self)
        requires
            self.wf(),
        ensures
            self@ == PoolState::<J>::init(self@.workers.len()).run(self.trace()),
            self@.workers.len() == self.handles().len(),
            self@.workers.len() >= 1,
            self.joined() <= self.handles().len(),
            self.joined() > 0 ==> self@.stopping,
            forall|i: int|
                0 <= i < self.handles().len() ==> (#[trigger] self.handles()[i] is Some <==> i
                    >= self.joined()),
    {
    }

    /// A pool of `size` workers with the ids `0 .. size`, all of them
    /// running, and an empty channel. `spawn` is called for each id, in
    /// rising order, and starts that worker's thread.
    pub fn new<F: Fn(usize) -> H>(size: usize, spawn: F) -> (pool: Self)
        requires
            size > 0,
            forall|id: usize| id < size ==> call_requires(spawn, (id,)),
        ensures
            pool.wf(),
            pool@ == PoolState::<J>::init(size as nat),
            pool.trace() == Seq::<Event<J>>::empty(),
            pool.joined() == 0,
            pool.handles().len() == size,
            forall|i: int|
                0 <= i < size ==> (#[trigger] pool.handles()[i]) is Some && call_ensures(
                    spawn,
                    (i as usize,),
                    pool.handles()[i]->Some_0,
                ),
    {
        let mut workers: Vec<Worker<H>> = Vec::with_capacity(size);
        let mut id: usize = 0;
        while id < size
            invariant
                id <= size,
                workers@.len() == id,
                forall|k: usize| k < size ==> call_requires(spawn, (k,)),
                forall|i: int|
                    0 <= i < id ==> {
                        &&& (#[trigger] workers@[i]).id == i
                        &&& workers@[i].state == WorkerState::Running
                        &&& workers@[i].thread is Some
                        &&& call_ensures(spawn, (i as usize,), workers@[i].thread->Some_0)
                    },
            decreases size - id,
        {
            let thread = spawn(id);
            workers.push(Worker::new(id, thread));
            id = id + 1;
        }
        ThreadPool {
            workers,
            channel: DispatchChannel::new(size),
            stopping: false,
            joined: 0,
            trace: Ghost(Seq::empty()),
        }
    }

    /// The number of workers.
    pub fn size(&self) -> (n: usize)
        requires
            self.wf(),
        ensures
            n == self@.workers.len(),
    {
        self.workers.len()
    }

    /// Whether shutdown has begun.
    pub fn is_stopping(&self) -> (stopping: bool)
        requires
            self.wf(),
        ensures
            stopping == self@.stopping,
    {
        self.stopping
    }

    /// Whether some worker is still there to take a message.
    pub fn is_connected(&self) -> (connected: bool)
        requires
            self.wf(),
        ensures
            connected == self@.channel.connected(),
    {
        self.channel.is_connected()
    }

    /// The number of messages that wait on the channel.
    pub fn pending(&self) -> (n: usize)
        requires
            self.wf(),
        ensures
            n == self@.channel.pending().len(),
    {
        self.channel.len()
    }

    /// Where the thread of `worker` stands.
    pub fn worker_state(&self, worker: usize) -> (state: WorkerState)
        requires
            self.wf(),
            worker < self@.workers.len(),
        ensures
            state == self@.workers[worker as int],
    {
        self.workers[worker].state
    }

    /// Submits `job`: wraps it in `NewJob` and puts it on the channel, then
    /// returns at once. The pool has not begun to shut down, and some worker
    /// is there to take the job.
    pub fn execute(&mut self, job: J)
        requires
            old(self).wf(),
            !old(self)@.stopping,
            old(self)@.channel.connected(),
        ensures
            final(self).wf(),
            final(self).trace() == old(self).trace().push(Event::Execute(job)),
            final(self)@ == old(self)@.step(Event::Execute(job)),
            final(self)@.channel == old(self)@.channel.send(Message::NewJob(job)),
            final(self)@.workers == old(self)@.workers,
            final(self).handles() == old(self).handles(),
            final(self).joined() == old(self).joined(),
    {
        let _ = self.channel.send(Message::NewJob(job));
        proof {
            lemma_run_push(
                PoolState::<J>::init(self.workers@.len()),
                self.trace@,
                Event::Execute(job),
            );
            self.trace@ = self.trace@.push(Event::Execute(job));
        }
    }

    /// One turn of the loop of `worker`: the worker looks into the channel
    /// and is told what to do.
    ///
    /// This is all that a worker does while it holds the pool's lock. It
    /// does not panic, so a worker's turn never leaves the lock poisoned.
    pub fn poll(&mut self, worker: usize) -> (action: Action<J>)
        requires
            old(self).wf(),
            worker < old(self)@.workers.len(),
        ensures
            final(self).wf(),
            final(self).trace() == old(self).trace().push(Event::Poll(worker as nat)),
            final(self)@ == old(self)@.step(Event::Poll(worker as nat)),
            final(self)@.workers.len() == old(self)@.workers.len(),
            action == turn(old(self)@.workers[worker as int], old(self)@.channel).2,
            final(self).handles() == old(self).handles(),
            final(self).joined() == old(self).joined(),
    {
        let ghost before = self@;
        proof {
            lemma_run_push(
                PoolState::<J>::init(self.workers@.len()),
                self.trace@,
                Event::Poll(worker as nat),
            );
            self.trace@ = self.trace@.push(Event::Poll(worker as nat));
        }
        if self.workers[worker].state != WorkerState::Running {
            assert(self@.workers =~= before.workers);
            return Action::Exit;
        }
        match self.channel.recv() {
            None => {
                assert(self@.workers =~= before.workers);
                Action::Wait
            },
            Some(message) => {
                let action = self.workers[worker].handle(message);
                if self.workers[worker].state != WorkerState::Running {
                    self.channel.release();
                }
                assert(self.handles() =~= old(self).handles());
                action
            },
        }
    }

    /// The job that `worker` was running has panicked: the thread is gone,
    /// and with it the worker's hold on the channel. Nothing queued is
    /// touched. A worker that no longer runs is left as it is.
    pub fn abandon(&mut self, worker: usize)
        requires
            old(self).wf(),
            worker < old(self)@.workers.len(),
        ensures
            final(self).wf(),
            final(self).trace() == old(self).trace().push(Event::Abandon(worker as nat)),
            final(self)@ == old(self)@.step(Event::Abandon(worker as nat)),
            final(self)@.workers.len() == old(self)@.workers.len(),
            final(self).handles() == old(self).handles(),
            final(self).joined() == old(self).joined(),
    {
        proof {
            lemma_run_push(
                PoolState::<J>::init(self.workers@.len()),
                self.trace@,
                Event::Abandon(worker as nat),
            );
            self.trace@ = self.trace@.push(Event::Abandon(worker as nat));
        }
        if self.workers[worker].state == WorkerState::Running {
            self.workers[worker].state = WorkerState::Panicked;
            self.channel.release();
            assert(self.handles() =~= old(self).handles());
        }
    }

    /// The next step of shutdown. The first call does the first phase: one
    /// `Terminate` for each worker goes on the channel, behind everything
    /// that was submitted. Each call after that hands out the handle of one
    /// worker's thread, lowest id first, for the caller to wait for, until
    /// none is left. So no thread is waited for before every worker has been
    /// told to stop.
    pub fn shutdown_step(&mut self) -> (step: ShutdownStep<H>)
        requires
            old(self).wf(),
            old(self)@.stopping || old(self)@.channel.connected(),
        ensures
            final(self).wf(),
            final(self)@.workers == old(self)@.workers,
            final(self).handles().len() == old(self).handles().len(),
            !old(self)@.stopping ==> {
                &&& step is Signalled
                &&& final(self).trace() == old(self).trace().push(Event::BeginShutdown)
                &&& final(self)@ == old(self)@.step(Event::BeginShutdown)
                &&& final(self).handles() == old(self).handles()
                &&& final(self).joined() == old(self).joined()
            },
            old(self)@.stopping ==> {
                &&& final(self).trace() == old(self).trace()
                &&& final(self)@ == old(self)@
            },
            old(self)@.stopping && old(self).joined() < old(self).handles().len() ==> {
                &&& step == ShutdownStep::Join(
                    old(self).joined() as usize,
                    old(self).handles()[old(self).joined() as int]->Some_0,
                )
                &&& final(self).joined() == old(self).joined() + 1
                &&& final(self).handles() == old(self).handles().update(
                    old(self).joined() as int,
                    None,
                )
            },
            old(self)@.stopping && old(self).joined() >= old(self).handles().len() ==> {
                &&& step is Done
                &&& final(self).joined() == old(self).joined()
                &&& final(self).handles() == old(self).handles()
            },
    {
        if !self.stopping {
            let size = self.workers.len();
            let ghost start = self.channel@;
            let mut sent: usize = 0;
            while sent < size
                invariant
                    sent <= size,
                    self.channel.wf(),
                    self.channel@ == start.send_all(terminates(sent as nat)),
                    start.connected(),
                    self.workers == old(self).workers,
                    self.trace == old(self).trace,
                    self.stopping == old(self).stopping,
                    self.joined == old(self).joined,
                decreases size - sent,
            {
                let _ = self.channel.send(Message::Terminate);
                sent = sent + 1;
                assert(terminates::<J>(sent as nat)
                    =~= terminates::<J>((sent - 1) as nat).push(
                    Message::Terminate,
                ));
            }
            self.stopping = true;
            proof {
                lemma_run_push(
                    PoolState::<J>::init(self.workers@.len()),
                    self.trace@,
                    Event::BeginShutdown,
                );
                self.trace@ = self.trace@.push(Event::BeginShutdown);
            }
            return ShutdownStep::Signalled;
        }
        if self.joined >= self.workers.len() {
            return ShutdownStep::Done;
        }
        let i = self.joined;
        let thread = self.workers[i].take_thread();
        self.joined = i + 1;
        assert(self.handles() =~= old(self).handles().update(i as int, None));
        match thread {
            Some(handle) => ShutdownStep::Join(i, handle),
            None => ShutdownStep::Done,
        }
    }
}

} // verus!
