use super::channel::ChannelState;
use super::message::{terminates, Message};
use super::worker::{turn, Action, WorkerState};
use vstd::prelude::*;

verus! {

/// A record that one worker took one message out of the channel.
pub struct Delivery {
    /// The id of the worker.
    pub worker: nat,
    /// The position of the message in the order of the sends.
    pub message: nat,
}

/// A pool at work, seen from outside all of its threads: the channel, where
/// each worker's thread stands, and what has happened so far.
pub struct PoolState<J> {
    pub channel: ChannelState<J>,
    /// The state of each worker's thread, by worker id.
    pub workers: Seq<WorkerState>,
    /// Whether the first phase of shutdown has been done.
    pub stopping: bool,
    /// The jobs that `execute` accepted, in the order of the calls.
    pub submitted: Seq<J>,
    /// The jobs that were handed to a worker to be run, in that order.
    pub executed: Seq<J>,
    /// Every receive that found a message, in the order in which they happened.
    pub deliveries: Seq<Delivery>,
}

/// What can happen to a pool. The events of all threads form one sequence,
/// because the channel is only ever touched under its lock.
pub enum Event<J> {
    /// Some submitter calls `ThreadPool::execute` with this job.
    Execute(J),
    /// This worker takes one turn of its loop, by `ThreadPool::poll`.
    Poll(nat),
    /// The job that this worker was running panics, and the worker is given
    /// up by `ThreadPool::abandon`.
    Abandon(nat),
    /// The owner starts to shut the pool down, by its first call of
    /// `ThreadPool::shutdown_step`.
    BeginShutdown,
}

/// `jobs`, each wrapped as the message that `execute` sends for it.
pub open spec fn as_messages<J>(jobs: Seq<J>) -> Seq<Message<J>> {
    Seq::new(jobs.len(), |i: int| Message::NewJob(jobs[i]))
}

/// How many of `workers` are in `state`.
pub open spec fn count_in(workers: Seq<WorkerState>, state: WorkerState) -> nat
    decreases workers.len(),
{
    if workers.len() == 0 {
        0
    } else {
        count_in(workers.drop_last(), state) + if workers.last() == state {
            1nat
        } else {
            0nat
        }
    }
}

/// No panic among `events`.
pub open spec fn panic_free<J>(events: Seq<Event<J>>) -> bool {
    forall|k: int| 0 <= k < events.len() ==> !(#[trigger] events[k] is Abandon)
}

/// The submissions of `jobs`, one after the other.
pub open spec fn submissions<J>(jobs: Seq<J>) -> Seq<Event<J>> {
    Seq::new(jobs.len(), |i: int| Event::Execute(jobs[i]))
}

/// One round of a pool of `size` workers: each worker takes one turn, the
/// lowest id first.
pub open spec fn round<J>(size: nat) -> Seq<Event<J>> {
    Seq::new(size, |i: int| Event::Poll(i as nat))
}

/// `count` rounds, one after the other.
pub open spec fn rounds<J>(size: nat, count: nat) -> Seq<Event<J>>
    decreases count,
{
    if count == 0 {
        Seq::empty()
    } else {
        rounds(size, (count - 1) as nat) + round(size)
    }
}

impl<J> PoolState<J> {
    /// A pool of `size` workers right after its construction.
    pub open spec fn init(size: nat) -> Self {
        PoolState {
            channel: ChannelState::init(size),
            workers: Seq::new(size, |i: int| WorkerState::Running),
            stopping: false,
            submitted: Seq::empty(),
            executed: Seq::empty(),
            deliveries: Seq::empty(),
        }
    }

    /// The state after `event`.
    ///
    /// A job is accepted while the pool has not begun to shut down and some
    /// worker is there to take it; shutdown begins once. An event that
    /// cannot happen, or that names no worker, changes nothing.
    pub open spec fn step(self, event: Event<J>) -> Self {
        match event {
            Event::Execute(job) => {
                if !self.stopping && self.channel.connected() {
                    PoolState {
                        channel: self.channel.send(Message::NewJob(job)),
                        submitted: self.submitted.push(job),
                        ..self
                    }
                } else {
                    self
                }
            },
            Event::Poll(worker) => {
                if worker < self.workers.len() {
                    let (state, channel, action) = turn(self.workers[worker as int], self.channel);
                    PoolState {
                        channel,
                        workers: self.workers.update(worker as int, state),
                        executed: match action {
                            Action::Run(job) => self.executed.push(job),
                            _ => self.executed,
                        },
                        deliveries: if channel.received != self.channel.received {
                            self.deliveries.push(
                                Delivery { worker, message: self.channel.received },
                            )
                        } else {
                            self.deliveries
                        },
                        ..self
                    }
                } else {
                    self
                }
            },
            Event::Abandon(worker) => {
                if worker < self.workers.len() && self.workers[worker as int] is Running {
                    PoolState {
                        channel: self.channel.release(),
                        workers: self.workers.update(worker as int, WorkerState::Panicked),
                        ..self
                    }
                } else {
                    self
                }
            },
            Event::BeginShutdown => {
                if !self.stopping {
                    PoolState {
                        channel: self.channel.send_all(terminates(self.workers.len())),
                        stopping: true,
                        ..self
                    }
                } else {
                    self
                }
            },
        }
    }

    /// The state after `events`, one after the other.
    pub open spec fn run(self, events: Seq<Event<J>>) -> Self
        decreases events.len(),
    {
        if events.len() == 0 {
            self
        } else {
            self.run(events.drop_last()).step(events.last())
        }
    }

    /// Every worker has taken its `Terminate`: each thread function has
    /// returned, so every join returns.
    pub open spec fn all_terminated(self) -> bool {
        forall|i: int| 0 <= i < self.workers.len() ==> #[trigger] self.workers[i] is Terminated
    }

    /// Some worker waits for a message that will never come: the queue is
    /// empty, and after the start of shutdown nothing is sent any more. The
    /// join of that worker would never return.
    pub open spec fn deadlocked(self) -> bool {
        &&& self.stopping
        &&& self.channel.pending().len() == 0
        &&& exists|i: int| 0 <= i < self.workers.len() && #[trigger] self.workers[i] is Running
    }

    /// What holds of the history of every pool, whatever happened to it:
    /// the k-th receive that found a message found message number k.
    pub open spec fn history_inv(self) -> bool {
        &&& self.channel.wf()
        &&& self.deliveries.len() == self.channel.received
        &&& forall|k: int|
            0 <= k < self.deliveries.len() ==> (#[trigger] self.deliveries[k]).message == k
                && self.deliveries[k].worker < self.workers.len()
    }

    /// What holds of a pool of `size` workers as long as no job has panicked.
    ///
    /// The channel's history is the submitted jobs followed, once shutdown
    /// has begun, by one `Terminate` for each worker. What was executed is the
    /// part of the submitted jobs that was received so far. A worker has
    /// terminated for each `Terminate` received; the others run and hold the
    /// consuming end.
    pub open spec fn protocol_inv(self, size: nat) -> bool {
        let jobs = self.submitted.len();
        let received = self.channel.received;
        let gone = if received > jobs {
            (received - jobs) as nat
        } else {
            0
        };
        &&& self.history_inv()
        &&& self.workers.len() == size
        &&& self.channel.sent == as_messages(self.submitted) + terminates(
            if self.stopping {
                size
            } else {
                0
            },
        )
        &&& self.executed == self.submitted.take(
            if received > jobs {
                jobs as int
            } else {
                received as int
            },
        )
        &&& count_in(self.workers, WorkerState::Terminated) == gone
        &&& count_in(self.workers, WorkerState::Running) == size - gone
        &&& self.channel.consumers == size - gone
    }
}

/// Replacing one worker's state moves one unit of the count from the old
/// state to the new one.
proof fn lemma_count_update(
    workers: Seq<WorkerState>,
    i: int,
    new: WorkerState,
    state: WorkerState,
)
    requires
        0 <= i < workers.len(),
    ensures
        count_in(workers.update(i, new), state) + (if workers[i] == state {
            1nat
        } else {
            0nat
        }) == count_in(workers, state) + (if new == state {
            1nat
        } else {
            0nat
        }),
    decreases workers.len(),
{
    let updated = workers.update(i, new);
    if i == workers.len() - 1 {
        assert(updated.drop_last() =~= workers.drop_last());
    } else {
        assert(updated.drop_last() =~= workers.drop_last().update(i, new));
        lemma_count_update(workers.drop_last(), i, new, state);
    }
}

/// No more workers are in a state than there are workers, and all of them
/// are in it exactly when the count says so.
proof fn lemma_count_all(workers: Seq<WorkerState>, state: WorkerState)
    ensures
        count_in(workers, state) <= workers.len(),
        count_in(workers, state) == workers.len() <==> forall|i: int|
            0 <= i < workers.len() ==> #[trigger] workers[i] == state,
        count_in(workers, state) == 0 <==> forall|i: int|
            0 <= i < workers.len() ==> #[trigger] workers[i] != state,
    decreases workers.len(),
{
    if workers.len() > 0 {
        let front = workers.drop_last();
        lemma_count_all(front, state);
        assert forall|i: int| 0 <= i < front.len() implies front[i] == workers[i] by {}
        if count_in(workers, state) == workers.len() {
            assert forall|i: int| 0 <= i < workers.len() implies #[trigger] workers[i] == state by {
                if i < front.len() {
                    assert(front[i] == state);
                }
            }
        }
        if forall|i: int| 0 <= i < workers.len() ==> #[trigger] workers[i] == state {
            assert forall|i: int| 0 <= i < front.len() implies #[trigger] front[i] == state by {
                assert(workers[i] == state);
            }
            assert(workers[workers.len() - 1] == state);
        }
        if count_in(workers, state) == 0 {
            assert forall|i: int| 0 <= i < workers.len() implies #[trigger] workers[i] != state by {
                if i < front.len() {
                    assert(front[i] != state);
                }
            }
        }
        if forall|i: int| 0 <= i < workers.len() ==> #[trigger] workers[i] != state {
            assert forall|i: int| 0 <= i < front.len() implies #[trigger] front[i] != state by {
                assert(workers[i] != state);
            }
            assert(workers[workers.len() - 1] != state);
        }
    }
}

/// The history of a pool stays sound over every event.
proof fn lemma_history_step<J>(state: PoolState<J>, event: Event<J>)
    requires
        state.history_inv(),
    ensures
        state.step(event).history_inv(),
        state.step(event).workers.len() == state.workers.len(),
{
    let next = state.step(event);
    match event {
        Event::Poll(worker) => {
            if worker < state.workers.len() {
                assert forall|k: int| 0 <= k < next.deliveries.len() implies (
                #[trigger] next.deliveries[k]).message == k && next.deliveries[k].worker
                    < next.workers.len() by {
                    if k < state.deliveries.len() {
                        assert(next.deliveries[k] == state.deliveries[k]);
                    }
                }
            }
        },
        _ => {},
    }
}

/// The history of a pool is sound after any sequence of events.
proof fn lemma_history_run<J>(size: nat, events: Seq<Event<J>>)
    ensures
        PoolState::<J>::init(size).run(events).history_inv(),
        PoolState::<J>::init(size).run(events).workers.len() == size,
    decreases events.len(),
{
    if events.len() > 0 {
        lemma_history_run::<J>(size, events.drop_last());
        lemma_history_step(PoolState::<J>::init(size).run(events.drop_last()), events.last());
    }
}

/// As long as no job panics, every event keeps the pool within its protocol.
proof fn lemma_protocol_step<J>(state: PoolState<J>, size: nat, event: Event<J>)
    requires
        size >= 1,
        state.protocol_inv(size),
        !(event is Abandon),
    ensures
        state.step(event).protocol_inv(size),
{
    let next = state.step(event);
    let jobs = state.submitted.len();
    let received = state.channel.received;
    let tail = if state.stopping {
        size
    } else {
        0
    };
    lemma_history_step(state, event);
    lemma_count_all(state.workers, WorkerState::Terminated);
    lemma_count_all(state.workers, WorkerState::Running);
    assert(state.channel.sent.len() == jobs + tail);
    match event {
        Event::Execute(job) => {
            if !state.stopping && state.channel.connected() {
                assert(next.channel.sent =~= as_messages(next.submitted) + terminates::<J>(0));
                assert(next.executed =~= next.submitted.take(received as int));
            }
        },
        Event::Poll(worker) => {
            if worker < state.workers.len() {
                let i = worker as int;
                if state.workers[i] is Running && received < state.channel.sent.len() {
                    let message = state.channel.sent[received as int];
                    if received < jobs {
                        assert(message == Message::NewJob(state.submitted[received as int]));
                        assert(next.workers =~= state.workers);
                        assert(next.executed =~= state.submitted.take(received as int + 1));
                    } else {
                        assert(message == Message::<J>::Terminate);
                        lemma_count_update(
                            state.workers,
                            i,
                            WorkerState::Terminated,
                            WorkerState::Terminated,
                        );
                        lemma_count_update(
                            state.workers,
                            i,
                            WorkerState::Terminated,
                            WorkerState::Running,
                        );
                    }
                } else {
                    assert(next.workers =~= state.workers);
                }
            }
        },
        Event::Abandon(_) => {},
        Event::BeginShutdown => {
            if !state.stopping {
                assert(state.channel.connected());
                assert(next.channel.sent =~= as_messages(next.submitted) + terminates::<J>(size));
            }
        },
    }
}

/// A pool of `size` workers is within its protocol after any sequence of
/// events without a panic.
proof fn lemma_protocol_run<J>(size: nat, events: Seq<Event<J>>)
    requires
        size >= 1,
        panic_free(events),
    ensures
        PoolState::<J>::init(size).run(events).protocol_inv(size),
    decreases events.len(),
{
    let start = PoolState::<J>::init(size);
    if events.len() == 0 {
        assert(start.channel.sent =~= as_messages(start.submitted) + terminates::<J>(0));
        assert(start.executed =~= start.submitted.take(0));
        lemma_count_all(start.workers, WorkerState::Running);
        lemma_count_all(start.workers, WorkerState::Terminated);
    } else {
        let before = events.drop_last();
        assert forall|k: int| 0 <= k < before.len() implies !(#[trigger] before[k] is Abandon) by {
            assert(before[k] == events[k]);
        }
        lemma_protocol_run::<J>(size, before);
        lemma_protocol_step(start.run(before), size, events.last());
    }
}

/// One more event is one more step.
pub(crate) proof fn lemma_run_push<J>(state: PoolState<J>, events: Seq<Event<J>>, event: Event<J>)
    ensures
        state.run(events.push(event)) == state.run(events).step(event),
{
    assert(events.push(event).drop_last() =~= events);
}

/// Events that follow one another can be run in two parts.
proof fn lemma_run_append<J>(state: PoolState<J>, first: Seq<Event<J>>, rest: Seq<Event<J>>)
    ensures
        state.run(first + rest) == state.run(first).run(rest),
    decreases rest.len(),
{
    if rest.len() == 0 {
        assert(first + rest =~= first);
    } else {
        assert((first + rest).drop_last() =~= first + rest.drop_last());
        assert((first + rest).last() == rest.last());
        lemma_run_append(state, first, rest.drop_last());
    }
}

/// A pool that has only been given jobs holds them all, none of them
/// received.
proof fn lemma_submissions<J>(size: nat, jobs: Seq<J>)
    requires
        size >= 1,
    ensures
        ({
            let state = PoolState::<J>::init(size).run(submissions(jobs));
            &&& state.protocol_inv(size)
            &&& !state.stopping
            &&& state.submitted == jobs
            &&& state.channel.received == 0
        }),
    decreases jobs.len(),
{
    let start = PoolState::<J>::init(size);
    if jobs.len() == 0 {
        lemma_protocol_run::<J>(size, Seq::empty());
        assert(submissions(jobs) =~= Seq::<Event<J>>::empty());
        assert(start.submitted =~= jobs);
    } else {
        let before = jobs.drop_last();
        lemma_submissions(size, before);
        assert(submissions(jobs).drop_last() =~= submissions(before));
        assert(submissions(jobs).last() == Event::Execute(jobs.last()));
        let state = start.run(submissions(before));
        lemma_protocol_step(state, size, Event::Execute(jobs.last()));
        assert(state.step(Event::Execute(jobs.last())).submitted =~= jobs);
    }
}

/// Before shutdown, each turn of a worker takes one job out of the channel
/// as long as one waits there, whatever the other workers are doing.
proof fn lemma_turns<J>(state: PoolState<J>, size: nat, turns: Seq<Event<J>>)
    requires
        size >= 1,
        state.protocol_inv(size),
        !state.stopping,
        forall|k: int|
            0 <= k < turns.len() ==> (#[trigger] turns[k] matches Event::Poll(worker) && worker
                < size),
    ensures
        ({
            let end = state.run(turns);
            let waiting = state.submitted.len() - state.channel.received;
            &&& end.protocol_inv(size)
            &&& !end.stopping
            &&& end.submitted == state.submitted
            &&& end.channel.received == state.channel.received + if turns.len() < waiting {
                turns.len() as int
            } else {
                waiting
            }
        }),
    decreases turns.len(),
{
    if turns.len() > 0 {
        let before = turns.drop_last();
        assert forall|k: int| 0 <= k < before.len() implies (#[trigger] before[k] matches Event::Poll(
            worker,
        ) && worker < size) by {
            assert(before[k] == turns[k]);
        }
        lemma_turns(state, size, before);
        let middle = state.run(before);
        lemma_protocol_step(middle, size, turns.last());
        lemma_count_all(middle.workers, WorkerState::Running);
        assert(middle.channel.sent.len() == middle.submitted.len());
    }
}

/// Rounds are made of turns of the workers, as many as workers in each.
proof fn lemma_rounds<J>(size: nat, count: nat)
    ensures
        rounds::<J>(size, count).len() == count * size,
        forall|k: int|
            0 <= k < rounds::<J>(size, count).len() ==> (#[trigger] rounds::<J>(
                size,
                count,
            )[k] matches Event::Poll(worker) && worker < size),
    decreases count,
{
    if count == 0 {
        assert(count * size == 0) by (nonlinear_arith)
            requires
                count == 0,
        ;
    } else {
        lemma_rounds::<J>(size, (count - 1) as nat);
        assert((count - 1) * size + size == count * size) by (nonlinear_arith);
        let before = rounds::<J>(size, (count - 1) as nat);
        assert(rounds::<J>(size, count).len() == before.len() + size);
        assert forall|k: int| 0 <= k < rounds::<J>(size, count).len() implies (#[trigger] rounds::<
            J,
        >(size, count)[k] matches Event::Poll(worker) && worker < size) by {
            if k < before.len() {
                assert(rounds::<J>(size, count)[k] == before[k]);
            } else {
                assert(rounds::<J>(size, count)[k] == round::<J>(size)[k - before.len()]);
            }
        }
    }
}

/// Exactly-once execution. In a pool of at least one worker in which no job
/// panics, whatever the submitters and the workers do and in whatever order:
/// the jobs handed out to be run are the jobs submitted, in the order of
/// their submission, none of them twice and none that nobody submitted; and
/// once every worker has terminated, which is when the drop of the pool
/// returns, every submitted job has been handed out.
pub proof fn law_exactly_once<J>(size: nat, events: Seq<Event<J>>)
    requires
        size >= 1,
        panic_free(events),
    ensures
        ({
            let end = PoolState::<J>::init(size).run(events);
            &&& end.executed.len() <= end.submitted.len()
            &&& end.executed == end.submitted.take(end.executed.len() as int)
            &&& end.all_terminated() ==> end.executed == end.submitted
        }),
{
    let end = PoolState::<J>::init(size).run(events);
    lemma_protocol_run::<J>(size, events);
    lemma_count_all(end.workers, WorkerState::Terminated);
    if end.all_terminated() {
        assert(end.channel.received == end.submitted.len() + size);
        assert(end.executed =~= end.submitted);
    }
}

/// No double dequeue. Whatever happens to a pool, panics included, and
/// however many submitters there are: the receives that found a message
/// found the messages in the order in which they were sent, one each, so no
/// message was ever seen by two workers, nor twice by one.
pub proof fn law_no_double_dequeue<J>(size: nat, events: Seq<Event<J>>)
    ensures
        ({
            let end = PoolState::<J>::init(size).run(events);
            &&& end.deliveries.len() <= end.channel.sent.len()
            &&& forall|k: int|
                0 <= k < end.deliveries.len() ==> (#[trigger] end.deliveries[k]).message == k
            &&& forall|a: int, b: int|
                0 <= a < end.deliveries.len() && 0 <= b < end.deliveries.len() && a != b ==> (
                #[trigger] end.deliveries[a]).message != (#[trigger] end.deliveries[b]).message
        }),
{
    lemma_history_run::<J>(size, events);
}

/// Deadlock-free shutdown. In a pool of at least one worker in which no job
/// panics, once the first phase of shutdown is done: a message waits for
/// every worker that still runs, however busy it was when shutdown began, so
/// none of them waits in vain; each turn of a running worker takes one
/// message out of the queue; and the queue is empty exactly when every worker
/// has terminated. The wait for the workers therefore ends after as many
/// such turns as messages were pending.
pub proof fn law_shutdown_completes<J>(size: nat, events: Seq<Event<J>>)
    requires
        size >= 1,
        panic_free(events),
    ensures
        ({
            let end = PoolState::<J>::init(size).run(events);
            &&& !end.deadlocked()
            &&& end.stopping ==> count_in(end.workers, WorkerState::Running)
                <= end.channel.pending().len()
            &&& end.stopping ==> (end.channel.pending().len() == 0 <==> end.all_terminated())
            &&& forall|worker: nat|
                end.stopping && worker < size && end.workers[worker as int] is Running
                    ==> #[trigger] end.step(Event::Poll(worker)).channel.pending().len() + 1
                    == end.channel.pending().len()
        }),
{
    let end = PoolState::<J>::init(size).run(events);
    lemma_protocol_run::<J>(size, events);
    lemma_count_all(end.workers, WorkerState::Terminated);
    lemma_count_all(end.workers, WorkerState::Running);
}

/// Jobs run side by side. Let a pool of at least one worker be given some
/// jobs, and let its workers then take turns in rounds, each worker one turn
/// in each round, none waiting for another to finish its job. Each round
/// hands out as many jobs as there are workers, as long as jobs are left: after
/// `count` rounds the first `count * size` of the jobs are handed out, or all
/// of them where there are fewer. The rounds that the jobs take are their
/// number divided by the number of workers, rounded up, not their number.
pub proof fn law_jobs_run_side_by_side<J>(size: nat, jobs: Seq<J>, count: nat)
    requires
        size >= 1,
    ensures
        ({
            let end = PoolState::<J>::init(size).run(submissions(jobs) + rounds(size, count));
            &&& end.executed == jobs.take(
                if count * size < jobs.len() {
                    (count * size) as int
                } else {
                    jobs.len() as int
                },
            )
            &&& count * size >= jobs.len() <==> end.executed == jobs
        }),
{
    let start = PoolState::<J>::init(size);
    let given = start.run(submissions(jobs));
    let end = given.run(rounds(size, count));
    lemma_run_append(start, submissions(jobs), rounds(size, count));
    lemma_submissions(size, jobs);
    lemma_rounds::<J>(size, count);
    lemma_turns(given, size, rounds(size, count));
    if count * size >= jobs.len() {
        assert(end.executed =~= jobs);
    } else {
        assert(end.executed.len() < jobs.len());
    }
}

/// Why shutdown has two phases. A `Terminate` ends the worker that takes it
/// and no other: where one is all that waits on a channel and one worker
/// takes it, any other running worker finds the queue empty, and its turn
/// changes nothing. An owner that sent one `Terminate` and waited for the
/// thread of a worker of its choice before it sent the next would wait for
/// ever where another worker took it.
pub proof fn law_one_terminate_ends_one_worker<J>(channel: ChannelState<J>)
    requires
        channel.wf(),
        channel.pending() == seq![Message::<J>::Terminate],
    ensures
        ({
            let (taker, after, _) = turn(WorkerState::Running, channel);
            let (other, end, action) = turn(WorkerState::Running, after);
            &&& taker is Terminated
            &&& other is Running
            &&& action is Wait
            &&& end == after
            &&& end.pending().len() == 0
        }),
{
    assert(channel.pending().len() == 1);
    assert(channel.pending()[0] == Message::<J>::Terminate);
}

/// A send cannot fail in the normal life of a pool. In a pool of at least
/// one worker in which no job panics, some worker holds the consuming end
/// until shutdown has begun, and after that until the last worker has
/// terminated.
pub proof fn law_channel_stays_connected<J>(size: nat, events: Seq<Event<J>>)
    requires
        size >= 1,
        panic_free(events),
    ensures
        ({
            let end = PoolState::<J>::init(size).run(events);
            &&& !end.stopping ==> end.channel.connected()
            &&& !end.all_terminated() ==> end.channel.connected()
        }),
{
    let end = PoolState::<J>::init(size).run(events);
    lemma_protocol_run::<J>(size, events);
    lemma_count_all(end.workers, WorkerState::Terminated);
}

} // verus!
