//! A pool of worker threads for a small web server.
//!
//! The pool has a fixed number of workers. Submitters put jobs on a channel;
//! each worker takes one message at a time off the channel, under a lock that
//! it holds for the dequeue only, and runs the job or, on `Terminate`, ends.
//! Shutdown has two phases: one `Terminate` for each worker is sent first,
//! and only then are the workers' threads waited for.
//!
//! What is here is everything but the threads, the lock and the waiting:
//! the channel, the pool with every step that a submitter, a worker or the
//! owner takes, and the protocol that these steps follow, with what is proved
//! of it. A program that starts the threads guards the pool with a lock,
//! calls into this module for every step, and does what it is told.
//!
//! The channel hands out its messages in the order of the sends. So every
//! job that was submitted before shutdown began leaves the channel before the
//! first `Terminate` does: the pool drains its queue before it stops. A job
//! that panics takes its worker's thread along and is not run again; the
//! jobs behind it wait for the workers that are left.

pub mod channel;
pub mod connection;
pub mod message;
pub mod pool;
pub mod protocol;
pub mod worker;
